//! A message at the agent, from its receipt to whether it is deleted from the
//! queue.
//!
//! The message is worked off in steps. Each step says in a [`Step`] what has to
//! be done outside (parse a text, look for a file, run a program), and goes on
//! with what came of it.
use crate::action::{ActionConfig, ActionModel, ExecPlan, FaultModel, PlanModel, ShaCheck};
use crate::agent::{
    attempt_tail, attempt_text, receive_count, tail_of, tail_text, text_model, times_received,
    Config,
};
use crate::command::{command_for, command_of, sha_refusal, status_model, verify_sha, CommandLine};
use crate::fault::{debug_text, fault_text, quoted};
use crate::message::{Envelope, EnvelopeModel, NotifyEvent, NotifyMode, NotifyModel};
use crate::plan::{outcomes_of, plan_of};
use crate::plan_laws::law_plan_runs_the_command;
use crate::request::read_model;
use crate::text::{chars_of, joined2, joined3};
use crate::timeout::parse_timeout;
use vstd::prelude::*;
use vstd::utf8::{decode_utf8, valid_utf8};

verus! {

// ---------------------------------------------------------------------------
// How it ends

/// What became of a message.
#[derive(Debug, Clone, PartialEq, Eq)]
pub enum Settlement {
    /// Addressed to another host.
    Skipped { id: String, target: String },
    /// The action is not on this host's allowlist.
    NotAllowed { action: String, path: String },
    /// Valid, and reported instead of run.
    DryRun { action: String, argv: Vec<String>, run_as: Option<String>, checks: usize },
    /// The action ran and succeeded.
    Done { action: String, id: String },
    /// A failure; the text says which.
    Failed(String),
}

/// What a [`Settlement`] says.
pub enum SettlementModel {
    Skipped { id: Seq<char>, target: Seq<char> },
    NotAllowed { action: Seq<char>, path: Seq<char> },
    DryRun { action: Seq<char>, argv: Seq<Seq<char>>, run_as: Option<Seq<char>>, checks: nat },
    Done { action: Seq<char>, id: Seq<char> },
    Failed(Seq<char>),
}

impl DeepView for Settlement {
    type V = SettlementModel;

    open spec fn deep_view(&self) -> SettlementModel {
        match self {
            Settlement::Skipped { id, target } => SettlementModel::Skipped {
                id: id@,
                target: target@,
            },
            Settlement::NotAllowed { action, path } => SettlementModel::NotAllowed {
                action: action@,
                path: path@,
            },
            Settlement::DryRun { action, argv, run_as, checks } => SettlementModel::DryRun {
                action: action@,
                argv: argv.deep_view(),
                run_as: run_as.deep_view(),
                checks: *checks as nat,
            },
            Settlement::Done { action, id } => SettlementModel::Done { action: action@, id: id@ },
            Settlement::Failed(why) => SettlementModel::Failed(why@),
        }
    }
}

impl Settlement {
    /// Whether the message is deleted from the queue: on success and on a clean
    /// ignore. A failure is left for the queue to deliver again.
    pub fn deletes(&self) -> (r: bool)
        ensures
            r == !(self.deep_view() is Failed),
    {
        match self {
            Settlement::Failed(_) => false,
            _ => true,
        }
    }
}

/// Result of running an action's command: exit status + captured combined output.
#[derive(Debug, Clone, PartialEq, Eq)]
pub struct RunResult {
    pub ok: bool,
    pub exit_code: Option<i32>,
    pub output: String,
}

/// What a [`RunResult`] says.
pub struct RunModel {
    pub ok: bool,
    pub exit_code: Option<i32>,
    pub output: Seq<char>,
}

impl DeepView for RunResult {
    type V = RunModel;

    open spec fn deep_view(&self) -> RunModel {
        RunModel { ok: self.ok, exit_code: self.exit_code, output: self.output@ }
    }
}

/// How a command ended.
#[derive(Debug, Clone, PartialEq, Eq)]
pub enum RunEnd {
    /// It exited.
    Exited(RunResult),
    /// It was still running when its time was up.
    TimedOut,
    /// It could not be run; the text says why.
    NotRun(String),
}

/// What a [`RunEnd`] says.
pub enum RunEndModel {
    Exited(RunModel),
    TimedOut,
    NotRun(Seq<char>),
}

impl DeepView for RunEnd {
    type V = RunEndModel;

    open spec fn deep_view(&self) -> RunEndModel {
        match self {
            RunEnd::Exited(run) => RunEndModel::Exited(run.deep_view()),
            RunEnd::TimedOut => RunEndModel::TimedOut,
            RunEnd::NotRun(why) => RunEndModel::NotRun(why@),
        }
    }
}

/// What `{:?}` makes of a duration of that many seconds.
pub uninterp spec fn duration_text(secs: int) -> Seq<char>;

/// The `Debug` form of a `std::time::Duration` of whole seconds, as `format!`
/// writes it: a function of the seconds alone.
#[verifier::external_body]
fn duration_debug(secs: u64) -> (r: String)
    ensures
        r@ == duration_text(secs as int),
{
    format!("{:?}", std::time::Duration::from_secs(secs))
}

/// What `String::from_utf8_lossy` makes of bytes.
pub uninterp spec fn lossy_text(bytes: Seq<u8>) -> Seq<char>;

/// `String::from_utf8_lossy`: the text that the bytes encode where they are valid
/// UTF-8, and a text with replacement characters for what is not; a function of
/// the bytes alone.
#[verifier::external_body]
fn decode_lossy(bytes: &[u8]) -> (r: String)
    ensures
        r@ == lossy_text(bytes@),
        valid_utf8(bytes@) ==> r@ == decode_utf8(bytes@),
{
    String::from_utf8_lossy(bytes).into_owned()
}

/// The result of a command that exited: its output is what it wrote to stdout,
/// followed by what it wrote to stderr.
pub fn run_result(ok: bool, exit_code: Option<i32>, stdout: &str, stderr: &str) -> (r: RunResult)
    ensures
        r.deep_view() == (RunModel { ok, exit_code, output: stdout@ + stderr@ }),
{
    RunResult { ok, exit_code, output: joined2(stdout, stderr) }
}

/// The result of a command that exited, from the bytes that it wrote to stdout
/// and to stderr.
pub fn captured_result(ok: bool, exit_code: Option<i32>, stdout: &[u8], stderr: &[u8]) -> (r:
    RunResult)
    ensures
        r.deep_view() == (RunModel {
            ok,
            exit_code,
            output: lossy_text(stdout@) + lossy_text(stderr@),
        }),
        valid_utf8(stdout@) && valid_utf8(stderr@) ==> r.deep_view().output == decode_utf8(stdout@)
            + decode_utf8(stderr@),
{
    let out = decode_lossy(stdout);
    let err = decode_lossy(stderr);
    run_result(ok, exit_code, out.as_str(), err.as_str())
}

// ---------------------------------------------------------------------------
// Where a message stands

/// A message whose text has to be parsed.
#[derive(Debug)]
pub struct Received {
    text: String,
}

/// What a [`Received`] says.
pub struct ReceivedModel {
    pub text: Seq<char>,
}

impl DeepView for Received {
    type V = ReceivedModel;

    closed spec fn deep_view(&self) -> ReceivedModel {
        ReceivedModel { text: self.text@ }
    }
}

/// A message for this host, whose action has to be looked for at `path`.
#[derive(Debug)]
pub struct Addressed {
    envelope: Envelope,
    path: String,
}

/// What an [`Addressed`] says.
pub struct AddressedModel {
    pub envelope: EnvelopeModel,
    pub path: Seq<char>,
}

impl DeepView for Addressed {
    type V = AddressedModel;

    closed spec fn deep_view(&self) -> AddressedModel {
        AddressedModel { envelope: self.envelope.deep_view(), path: self.path@ }
    }
}

/// A message whose action is on the allowlist: the file at `path` has to be read.
#[derive(Debug)]
pub struct Allowed {
    envelope: Envelope,
    path: String,
}

/// What an [`Allowed`] says.
pub struct AllowedModel {
    pub envelope: EnvelopeModel,
    pub path: Seq<char>,
}

impl DeepView for Allowed {
    type V = AllowedModel;

    closed spec fn deep_view(&self) -> AllowedModel {
        AllowedModel { envelope: self.envelope.deep_view(), path: self.path@ }
    }
}

/// A message with the text of its action's file, which has to be parsed.
#[derive(Debug)]
pub struct Loaded {
    envelope: Envelope,
    path: String,
    text: String,
}

/// What a [`Loaded`] says.
pub struct LoadedModel {
    pub envelope: EnvelopeModel,
    pub path: Seq<char>,
    pub text: Seq<char>,
}

impl DeepView for Loaded {
    type V = LoadedModel;

    closed spec fn deep_view(&self) -> LoadedModel {
        LoadedModel { envelope: self.envelope.deep_view(), path: self.path@, text: self.text@ }
    }
}

/// A planned message that is being executed. The first `checked` of the plan's
/// repo-state checks are passed.
#[derive(Debug)]
struct Executing {
    envelope: Envelope,
    action: ActionConfig,
    plan: ExecPlan,
    checked: usize,
}

/// A planned message with a repo-state check to run.
#[derive(Debug)]
pub struct Checking {
    at: Executing,
}

/// A planned message with all of its repo-state checks passed: its command has
/// to be run.
#[derive(Debug)]
pub struct Ready {
    at: Executing,
}

/// Where the execution of a planned message stands.
pub struct ExecutingModel {
    pub envelope: EnvelopeModel,
    pub action: ActionModel,
    pub plan: PlanModel,
    pub checked: int,
}

impl DeepView for Executing {
    type V = ExecutingModel;

    closed spec fn deep_view(&self) -> ExecutingModel {
        ExecutingModel {
            envelope: self.envelope.deep_view(),
            action: self.action.deep_view(),
            plan: self.plan.deep_view(),
            checked: self.checked as int,
        }
    }
}

impl DeepView for Checking {
    type V = ExecutingModel;

    closed spec fn deep_view(&self) -> ExecutingModel {
        self.at.deep_view()
    }
}

impl DeepView for Ready {
    type V = ExecutingModel;

    closed spec fn deep_view(&self) -> ExecutingModel {
        self.at.deep_view()
    }
}

/// A message whose execution has ended, and has to be timed.
#[derive(Debug)]
pub struct Ended {
    envelope: Envelope,
    notify: NotifyMode,
    result: Result<RunResult, String>,
}

/// What an [`Ended`] says.
pub struct EndedModel {
    pub envelope: EnvelopeModel,
    pub notify: NotifyMode,
    pub result: Result<RunModel, Seq<char>>,
}

impl DeepView for Ended {
    type V = EndedModel;

    closed spec fn deep_view(&self) -> EndedModel {
        EndedModel {
            envelope: self.envelope.deep_view(),
            notify: self.notify,
            result: read_model(self.result),
        }
    }
}

/// A message whose outcome has to be published before it is settled.
#[derive(Debug)]
pub struct Publishing {
    event: NotifyEvent,
    settlement: Settlement,
}

/// What a [`Publishing`] says.
pub struct PublishingModel {
    pub event: NotifyModel,
    pub settlement: SettlementModel,
}

impl DeepView for Publishing {
    type V = PublishingModel;

    closed spec fn deep_view(&self) -> PublishingModel {
        PublishingModel {
            event: self.event.deep_view(),
            settlement: self.settlement.deep_view(),
        }
    }
}

/// What has to be done next for a message.
#[derive(Debug)]
pub enum Step {
    /// Parse the text as an envelope.
    ParseEnvelope(Received),
    /// Look for the action's file.
    FindAction(Addressed),
    /// Read the action's file.
    ReadAction(Allowed),
    /// Parse the text of the action's file.
    ParseAction(Loaded),
    /// Run the next repo-state check.
    CheckSha(Checking),
    /// Run the command.
    Run(Ready),
    /// Say how long the execution took.
    Time(Ended),
    /// Publish the event, best-effort.
    Publish(Publishing),
    /// The message is settled.
    Settle(Settlement),
}

/// What a [`Step`] says.
pub enum StepModel {
    ParseEnvelope(ReceivedModel),
    FindAction(AddressedModel),
    ReadAction(AllowedModel),
    ParseAction(LoadedModel),
    CheckSha(ExecutingModel),
    Run(ExecutingModel),
    Time(EndedModel),
    Publish(PublishingModel),
    Settle(SettlementModel),
}

impl DeepView for Step {
    type V = StepModel;

    open spec fn deep_view(&self) -> StepModel {
        match self {
            Step::ParseEnvelope(s) => StepModel::ParseEnvelope(s.deep_view()),
            Step::FindAction(s) => StepModel::FindAction(s.deep_view()),
            Step::ReadAction(s) => StepModel::ReadAction(s.deep_view()),
            Step::ParseAction(s) => StepModel::ParseAction(s.deep_view()),
            Step::CheckSha(s) => StepModel::CheckSha(s.deep_view()),
            Step::Run(s) => StepModel::Run(s.deep_view()),
            Step::Time(s) => StepModel::Time(s.deep_view()),
            Step::Publish(s) => StepModel::Publish(s.deep_view()),
            Step::Settle(s) => StepModel::Settle(s.deep_view()),
        }
    }
}

/// A failure with its context before it.
pub open spec fn failed(context: Seq<char>, why: Seq<char>) -> StepModel {
    StepModel::Settle(SettlementModel::Failed(context + ": "@ + why))
}

/// A failure with its context before it.
fn fail(context: &str, why: &str) -> (r: Step)
    ensures
        r.deep_view() == failed(context@, why@),
{
    Step::Settle(Settlement::Failed(joined3(context, ": ", why)))
}

// ---------------------------------------------------------------------------
// The allowlist

/// Whether an action's name is the stem of a file directly in a directory: there
/// is a name, and it leads to no other directory.
pub open spec fn plain_stem(action: Seq<char>) -> bool {
    action.len() > 0 && !action.contains('/')
}

/// Whether an action's name is the stem of a file directly in a directory.
pub fn is_plain_stem(action: &str) -> (r: bool)
    ensures
        r == plain_stem(action@),
{
    let chars = chars_of(action);
    let mut i: usize = 0;
    while i < chars.len()
        invariant
            i <= chars@.len(),
            chars@ == action@,
            forall|j: int| 0 <= j < i ==> action@[j] != '/',
        decreases chars@.len() - i,
    {
        if chars[i] == '/' {
            assert(action@[i as int] == '/');
            return false;
        }
        i = i + 1;
    }
    chars.len() > 0
}

/// A directory as what stands before the names of its files: with a slash at its
/// end. The empty text is the present directory.
pub open spec fn directory_prefix(dir: Seq<char>) -> Seq<char> {
    if dir.len() == 0 || dir.last() == '/' {
        dir
    } else {
        dir.push('/')
    }
}

/// The path of an action's file in the directory of the allowlist.
pub open spec fn action_path(dir: Seq<char>, action: Seq<char>) -> Seq<char> {
    directory_prefix(dir) + (action + ".toml"@)
}

/// The path of an action's file in the directory of the allowlist.
pub fn action_file(dir: &str, action: &str) -> (r: String)
    ensures
        r@ == action_path(dir@, action@),
{
    let chars = chars_of(dir);
    let n = chars.len();
    let mut prefix = dir.to_owned();
    if n > 0 && chars[n - 1] != '/' {
        prefix.push('/');
    }
    joined2(prefix.as_str(), joined2(action, ".toml").as_str())
}

// ---------------------------------------------------------------------------
// Pre-flight

/// What a message starts with.
pub open spec fn receipt_step(body: Option<Seq<char>>) -> StepModel {
    match body {
        Some(text) => StepModel::ParseEnvelope(ReceivedModel { text }),
        None => StepModel::Settle(SettlementModel::Failed("message has no body"@)),
    }
}

/// Starts with a message of the queue.
pub fn receive(body: Option<String>) -> (r: Step)
    ensures
        r.deep_view() == receipt_step(body.deep_view()),
{
    match body {
        Some(text) => Step::ParseEnvelope(Received { text }),
        None => Step::Settle(Settlement::Failed("message has no body".to_owned())),
    }
}

/// What follows the parsing of a message: it is looked at only where it is
/// addressed to this host, and then its action is looked for in the directory
/// `dir` of the allowlist.
pub open spec fn envelope_step(
    host: Seq<char>,
    dir: Seq<char>,
    parsed: Result<EnvelopeModel, Seq<char>>,
) -> StepModel {
    match parsed {
        Ok(envelope) => if envelope.is_for(host) {
            StepModel::FindAction(
                AddressedModel { envelope, path: action_path(dir, envelope.action) },
            )
        } else {
            StepModel::Settle(
                SettlementModel::Skipped { id: envelope.id, target: envelope.target },
            )
        },
        Err(e) => failed("parse envelope"@, e),
    }
}

impl Received {
    /// The text to parse.
    pub fn text(&self) -> (r: &String)
        ensures
            r@ == self.deep_view().text,
    {
        &self.text
    }

    /// Goes on with the message.
    pub fn parsed(self, config: &Config, parsed: Result<Envelope, String>) -> (r: Step)
        ensures
            r.deep_view() == envelope_step(
                config.deep_view().host,
                config.deep_view().actions_dir,
                read_model(parsed),
            ),
    {
        match parsed {
            Ok(envelope) => if envelope.targets(config.host.as_str()) {
                let path = action_file(config.actions_dir.as_str(), envelope.action.as_str());
                Step::FindAction(Addressed { envelope, path })
            } else {
                Step::Settle(
                    Settlement::Skipped { id: envelope.id, target: envelope.target },
                )
            },
            Err(e) => fail("parse envelope", e.as_str()),
        }
    }
}

/// What follows the search for the action's file. An action is on the allowlist
/// where its name is the stem of a file directly in the directory of the
/// allowlist, and that file exists.
pub open spec fn allowlist_step(addressed: AddressedModel, exists: bool) -> StepModel {
    if exists && plain_stem(addressed.envelope.action) {
        StepModel::ReadAction(
            AllowedModel { envelope: addressed.envelope, path: addressed.path },
        )
    } else {
        StepModel::Settle(
            SettlementModel::NotAllowed {
                action: addressed.envelope.action,
                path: addressed.path,
            },
        )
    }
}

impl Addressed {
    /// The path to look for.
    pub fn path(&self) -> (r: &String)
        ensures
            r@ == self.deep_view().path,
    {
        &self.path
    }

    /// Goes on with whether there is a file at the path.
    pub fn located(self, exists: bool) -> (r: Step)
        ensures
            r.deep_view() == allowlist_step(self.deep_view(), exists),
    {
        if exists && is_plain_stem(self.envelope.action.as_str()) {
            Step::ReadAction(Allowed { envelope: self.envelope, path: self.path })
        } else {
            Step::Settle(
                Settlement::NotAllowed { action: self.envelope.action, path: self.path },
            )
        }
    }
}

/// What follows the reading of the action's file.
pub open spec fn file_step(allowed: AllowedModel, read: Result<Seq<char>, Seq<char>>) -> StepModel {
    match read {
        Ok(text) => StepModel::ParseAction(
            LoadedModel { envelope: allowed.envelope, path: allowed.path, text },
        ),
        Err(e) => failed("read "@ + allowed.path, e),
    }
}

/// Where the execution of a plan stands: at the next repo-state check, or at the
/// command once all of them are passed.
pub open spec fn execution_step(executing: ExecutingModel) -> StepModel {
    if executing.checked < executing.plan.sha_checks.len() {
        StepModel::CheckSha(executing)
    } else {
        StepModel::Run(executing)
    }
}

/// What follows a plan, or the error in its place.
pub open spec fn planned_step(
    envelope: EnvelopeModel,
    action: ActionModel,
    dry_run: bool,
    planned: Result<PlanModel, FaultModel>,
) -> StepModel {
    match planned {
        Ok(plan) => if dry_run {
            StepModel::Settle(
                SettlementModel::DryRun {
                    action: envelope.action,
                    argv: plan.argv,
                    run_as: action.run_as,
                    checks: plan.sha_checks.len(),
                },
            )
        } else {
            execution_step(ExecutingModel { envelope, action, plan, checked: 0 })
        },
        Err(fault) => failed("validate message args against action schema"@, fault_text(fault)),
    }
}

/// The plan of a message for an action.
pub open spec fn planned(action: ActionModel, envelope: EnvelopeModel) -> Result<
    PlanModel,
    FaultModel,
> {
    plan_of(action, envelope.args, outcomes_of(action.args, envelope.args))
}

/// What follows the parsing of the action's file.
pub open spec fn action_step(
    loaded: LoadedModel,
    dry_run: bool,
    parsed: Result<ActionModel, Seq<char>>,
) -> StepModel {
    match parsed {
        Ok(action) => planned_step(
            loaded.envelope,
            action,
            dry_run,
            planned(action, loaded.envelope),
        ),
        Err(e) => failed("parse "@ + loaded.path, e),
    }
}

impl Allowed {
    #[verifier::type_invariant]
    spec fn is_listed(self) -> bool {
        plain_stem(self.envelope.action@)
    }

    /// The path of the action's file.
    pub fn path(&self) -> (r: &String)
        ensures
            r@ == self.deep_view().path,
    {
        &self.path
    }

    /// Goes on with the text of the file, or why it could not be read.
    pub fn read(self, read: Result<String, String>) -> (r: Step)
        ensures
            r.deep_view() == file_step(self.deep_view(), text_model(read)),
    {
        proof {
            use_type_invariant(&self);
        }
        match read {
            Ok(text) => Step::ParseAction(
                Loaded { envelope: self.envelope, path: self.path, text },
            ),
            Err(e) => fail(joined2("read ", self.path.as_str()).as_str(), e.as_str()),
        }
    }
}

impl Loaded {
    #[verifier::type_invariant]
    spec fn is_listed(self) -> bool {
        plain_stem(self.envelope.action@)
    }

    /// The text to parse.
    pub fn text(&self) -> (r: &String)
        ensures
            r@ == self.deep_view().text,
    {
        &self.text
    }

    /// Goes on with the action: plans the message.
    pub fn parsed(self, config: &Config, parsed: Result<ActionConfig, String>) -> (r: Step)
        ensures
            r.deep_view() == action_step(
                self.deep_view(),
                config.deep_view().dry_run,
                read_model(parsed),
            ),
    {
        proof {
            use_type_invariant(&self);
        }
        let action = match parsed {
            Ok(action) => action,
            Err(e) => {
                return fail(joined2("parse ", self.path.as_str()).as_str(), e.as_str());
            },
        };
        match action.plan(&self.envelope) {
            Ok(plan) => if config.dry_run {
                assert(plan.sha_checks.deep_view().len() == plan.sha_checks@.len());
                Step::Settle(
                    Settlement::DryRun {
                        action: self.envelope.action,
                        argv: plan.argv,
                        run_as: action.run_as,
                        checks: plan.sha_checks.len(),
                    },
                )
            } else {
                Executing { envelope: self.envelope, action, plan, checked: 0 }.proceed()
            },
            Err(error) => fail(
                "validate message args against action schema",
                error.message().as_str(),
            ),
        }
    }
}

// ---------------------------------------------------------------------------
// Execution

/// What follows a repo-state check: the next one, or the command after the last,
/// where it is passed, and the end of the execution where it is not.
pub open spec fn check_step(executing: ExecutingModel, status: Result<bool, Seq<char>>) -> StepModel {
    let check = executing.plan.sha_checks[executing.checked];
    match sha_refusal(check, status) {
        None => execution_step(ExecutingModel { checked: executing.checked + 1, ..executing }),
        Some(why) => StepModel::Time(
            EndedModel {
                envelope: executing.envelope,
                notify: executing.action.notify,
                result: Err("sha check for arg "@ + debug_text(check.arg) + (": "@ + why)),
            },
        ),
    }
}

/// What came of a command that may run for `secs` seconds: the result of one that
/// exited, or why there is none.
pub open spec fn end_result(end: RunEndModel, secs: int) -> Result<RunModel, Seq<char>> {
    match end {
        RunEndModel::Exited(run) => Ok(run),
        RunEndModel::TimedOut => Err("action timed out after "@ + duration_text(secs)),
        RunEndModel::NotRun(why) => Err("spawning action: "@ + why),
    }
}

/// What follows the command.
pub open spec fn run_step(executing: ExecutingModel, end: RunEndModel) -> StepModel {
    let secs = command_of(executing.action, executing.plan.argv).timeout_secs;
    StepModel::Time(
        EndedModel {
            envelope: executing.envelope,
            notify: executing.action.notify,
            result: end_result(end, secs),
        },
    )
}

impl Executing {
    /// What is executed is the plan of the message for the action, which the
    /// message names by a plain stem.
    #[verifier::type_invariant]
    spec fn is_planned(self) -> bool {
        &&& plain_stem(self.envelope.action@)
        &&& planned(self.action.deep_view(), self.envelope.deep_view()) == Result::<
            PlanModel,
            FaultModel,
        >::Ok(self.plan.deep_view())
        &&& self.checked <= self.plan.sha_checks@.len()
    }

    /// Goes on with the next repo-state check, or with the command.
    fn proceed(self) -> (r: Step)
        ensures
            r.deep_view() == execution_step(self.deep_view()),
    {
        proof {
            use_type_invariant(&self);
        }
        assert(self.plan.sha_checks.deep_view().len() == self.plan.sha_checks@.len());
        if self.checked < self.plan.sha_checks.len() {
            Step::CheckSha(Checking { at: self })
        } else {
            Step::Run(Ready { at: self })
        }
    }
}

impl Checking {
    #[verifier::type_invariant]
    spec fn has_check(self) -> bool {
        self.at.checked < self.at.plan.sha_checks@.len()
    }

    /// The repo-state check to run.
    pub fn check(&self) -> (r: &ShaCheck)
        ensures
            r.deep_view() == self.deep_view().plan.sha_checks[self.deep_view().checked],
            plain_stem(self.deep_view().envelope.action),
    {
        proof {
            use_type_invariant(self);
            use_type_invariant(&self.at);
        }
        &self.at.plan.sha_checks[self.at.checked]
    }

    /// Goes on with git's exit status for the check: whether it succeeded, or why
    /// git could not be run.
    pub fn checked(self, status: Result<bool, String>) -> (r: Step)
        ensures
            r.deep_view() == check_step(self.deep_view(), status_model(status)),
    {
        proof {
            use_type_invariant(&self);
            use_type_invariant(&self.at);
        }
        let at = self.at;
        let total = at.plan.sha_checks.len();
        let check = &at.plan.sha_checks[at.checked];
        assert(at.deep_view().plan.sha_checks[at.checked as int] == check.deep_view());
        match verify_sha(check, status) {
            Ok(_) => {
                assert(at.checked < total);
                let checked = at.checked + 1;
                Executing {
                    envelope: at.envelope,
                    action: at.action,
                    plan: at.plan,
                    checked,
                }.proceed()
            },
            Err(why) => {
                let end = joined2(": ", why.as_str());
                let said = joined3(
                    "sha check for arg ",
                    quoted(check.arg.as_str()).as_str(),
                    end.as_str(),
                );
                Step::Time(
                    Ended { envelope: at.envelope, notify: at.action.notify, result: Err(said) },
                )
            },
        }
    }
}

impl Ready {
    #[verifier::type_invariant]
    spec fn all_checked(self) -> bool {
        self.at.checked == self.at.plan.sha_checks@.len()
    }

    /// The command to run: that of the message's plan, of which every repo-state
    /// check is passed, for an action that the message names by a plain stem.
    pub fn command(&self) -> (r: CommandLine)
        ensures
            r.deep_view() == command_of(self.deep_view().action, self.deep_view().plan.argv),
            planned(self.deep_view().action, self.deep_view().envelope) == Result::<
                PlanModel,
                FaultModel,
            >::Ok(self.deep_view().plan),
            self.deep_view().checked == self.deep_view().plan.sha_checks.len(),
            plain_stem(self.deep_view().envelope.action),
    {
        proof {
            use_type_invariant(self);
            use_type_invariant(&self.at);
            assert(self.at.plan.sha_checks.deep_view().len() == self.at.plan.sha_checks@.len());
            law_plan_runs_the_command(
                self.at.action.deep_view(),
                self.at.envelope.deep_view().args,
                outcomes_of(self.at.action.deep_view().args, self.at.envelope.deep_view().args),
            );
        }
        command_for(&self.at.action, &self.at.plan)
    }

    /// Goes on with how the command ended.
    pub fn ran(self, end: RunEnd) -> (r: Step)
        ensures
            r.deep_view() == run_step(self.deep_view(), end.deep_view()),
    {
        let result = match end {
            RunEnd::Exited(run) => Ok(run),
            RunEnd::TimedOut => {
                let timeout = match &self.at.action.timeout {
                    Some(text) => Some(text.as_str()),
                    None => None,
                };
                let secs = parse_timeout(timeout);
                Err(joined2("action timed out after ", duration_debug(secs).as_str()))
            },
            RunEnd::NotRun(why) => Err(joined2("spawning action: ", why.as_str())),
        };
        Step::Time(
            Ended { envelope: self.at.envelope, notify: self.at.action.notify, result },
        )
    }
}

// ---------------------------------------------------------------------------
// The outcome

impl EndedModel {
    /// Whether the action succeeded.
    pub open spec fn ok(self) -> bool {
        match self.result {
            Ok(run) => run.ok,
            Err(_) => false,
        }
    }

    /// What becomes of the message.
    pub open spec fn settlement(self) -> SettlementModel {
        match self.result {
            Ok(run) => if run.ok {
                SettlementModel::Done { action: self.envelope.action, id: self.envelope.id }
            } else {
                SettlementModel::Failed("action "@ + self.envelope.action + " exited non-zero"@)
            },
            Err(why) => SettlementModel::Failed(why),
        }
    }

    /// What is published of it.
    pub open spec fn event(
        self,
        host: Seq<char>,
        attempt: nat,
        secs: u64,
        nanos: u32,
    ) -> NotifyModel {
        NotifyModel::Outcome {
            host,
            action: self.envelope.action,
            source: self.envelope.source,
            id: self.envelope.id,
            ok: self.ok(),
            exit_code: match self.result {
                Ok(run) => run.exit_code,
                Err(_) => None,
            },
            duration_secs: secs,
            duration_nanos: nanos,
            tail: attempt_text(
                attempt,
                match self.result {
                    Ok(run) => tail_text(run.output, 15),
                    Err(why) => why,
                },
            ),
        }
    }
}

/// What follows the end of an execution: its outcome is published where the
/// action asks for it.
pub open spec fn outcome_step(
    ended: EndedModel,
    host: Seq<char>,
    attempt: nat,
    secs: u64,
    nanos: u32,
) -> StepModel {
    if ended.notify.emits(ended.ok()) {
        StepModel::Publish(
            PublishingModel {
                event: ended.event(host, attempt, secs, nanos),
                settlement: ended.settlement(),
            },
        )
    } else {
        StepModel::Settle(ended.settlement())
    }
}

impl Ended {
    /// Goes on with how long the execution took, and with the message's receive
    /// count as its queue attribute has it.
    pub fn timed(self, config: &Config, received: Option<&str>, secs: u64, nanos: u32) -> (r: Step)
        ensures
            r.deep_view() == outcome_step(
                self.deep_view(),
                config.deep_view().host,
                times_received(received.deep_view()) as nat,
                secs,
                nanos,
            ),
    {
        let (ok, exit_code, tail) = match &self.result {
            Ok(run) => (run.ok, run.exit_code, tail_of(run.output.as_str(), 15)),
            Err(why) => (false, None, why.clone()),
        };
        let settlement = match &self.result {
            Ok(run) => if run.ok {
                Settlement::Done {
                    action: self.envelope.action.clone(),
                    id: self.envelope.id.clone(),
                }
            } else {
                Settlement::Failed(
                    joined3("action ", self.envelope.action.as_str(), " exited non-zero"),
                )
            },
            Err(why) => Settlement::Failed(why.clone()),
        };
        if self.notify.should_emit(ok) {
            let event = NotifyEvent::Outcome {
                host: config.host.clone(),
                action: self.envelope.action,
                source: self.envelope.source,
                id: self.envelope.id,
                ok,
                exit_code,
                duration_secs: secs,
                duration_nanos: nanos,
                tail: attempt_tail(receive_count(received), tail),
            };
            Step::Publish(Publishing { event, settlement })
        } else {
            Step::Settle(settlement)
        }
    }
}

impl Publishing {
    /// The event to publish.
    pub fn event(&self) -> (r: &NotifyEvent)
        ensures
            r.deep_view() == self.deep_view().event,
    {
        &self.event
    }

    /// Goes on after the event, whether or not it could be published.
    pub fn published(self) -> (r: Step)
        ensures
            r.deep_view() == StepModel::Settle(self.deep_view().settlement),
    {
        Step::Settle(self.settlement)
    }
}

} // verus!
