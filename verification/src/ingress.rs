//! The ingress decision: what a webhook request should result in.
use crate::signature::{signs, verify_sig};
use crate::text::{joined2, same_text};
use crate::text_map::TextMap;
use vstd::prelude::*;

verus! {

/// What event fires a hook.
#[derive(Debug, Clone, Copy, PartialEq, Eq, Structural)]
pub enum Trigger {
    /// A push to the hook's branch.
    Push,
    /// A release that brings a new build.
    Release,
    /// Any signed request (e.g. a CI job POSTing after it publishes an artifact).
    Any,
}

impl Default for Trigger {
    fn default() -> (r: Self)
        ensures
            r == Trigger::Push,
    {
        Trigger::Push
    }
}

/// A hook definition, stored as an SSM SecureString at `/flotswarm/hooks/<id>`.
#[derive(Debug, Clone)]
pub struct HookConfig {
    pub secret: String,
    pub action: String,
    pub target: String,
    pub branch: String,
    pub trigger: Trigger,
    /// When true, forward the pushed head commit as an `sha` arg (push only).
    pub forward_sha: bool,
}

/// What a [`HookConfig`] says.
pub struct HookModel {
    pub secret: Seq<char>,
    pub action: Seq<char>,
    pub target: Seq<char>,
    pub branch: Seq<char>,
    pub trigger: Trigger,
    pub forward_sha: bool,
}

impl DeepView for HookConfig {
    type V = HookModel;

    open spec fn deep_view(&self) -> HookModel {
        HookModel {
            secret: self.secret@,
            action: self.action@,
            target: self.target@,
            branch: self.branch@,
            trigger: self.trigger,
            forward_sha: self.forward_sha,
        }
    }
}

/// The branch of a hook that names none.
pub fn default_branch() -> (r: String)
    ensures
        r@ == "main"@,
{
    "main".to_owned()
}

/// The repository of a GitHub payload.
#[derive(Debug, Clone)]
pub struct Repository {
    pub full_name: Option<String>,
}

/// What a [`Repository`] says.
pub struct RepositoryModel {
    pub full_name: Option<Seq<char>>,
}

impl DeepView for Repository {
    type V = RepositoryModel;

    open spec fn deep_view(&self) -> RepositoryModel {
        RepositoryModel { full_name: self.full_name.deep_view() }
    }
}

/// The subset of a GitHub push payload we care about.
#[derive(Debug, Clone)]
pub struct GithubPush {
    pub git_ref: Option<String>,
    pub after: Option<String>,
    pub repository: Option<Repository>,
}

/// What a [`GithubPush`] says.
pub struct PushModel {
    pub git_ref: Option<Seq<char>>,
    pub after: Option<Seq<char>>,
    pub repository: Option<RepositoryModel>,
}

impl DeepView for GithubPush {
    type V = PushModel;

    open spec fn deep_view(&self) -> PushModel {
        PushModel {
            git_ref: self.git_ref.deep_view(),
            after: self.after.deep_view(),
            repository: self.repository.deep_view(),
        }
    }
}

/// The subset of a GitHub release payload we care about.
#[derive(Debug, Clone)]
pub struct GithubRelease {
    pub action: Option<String>,
    pub repository: Option<Repository>,
}

/// What a [`GithubRelease`] says.
pub struct ReleaseModel {
    pub action: Option<Seq<char>>,
    pub repository: Option<RepositoryModel>,
}

impl DeepView for GithubRelease {
    type V = ReleaseModel;

    open spec fn deep_view(&self) -> ReleaseModel {
        ReleaseModel {
            action: self.action.deep_view(),
            repository: self.repository.deep_view(),
        }
    }
}

/// Where a payload comes from.
pub open spec fn source_text(repo: Option<RepositoryModel>) -> Option<Seq<char>> {
    match repo {
        Some(r) => match r.full_name {
            Some(name) => Some("github:"@ + name),
            None => None,
        },
        None => None,
    }
}

/// Where a payload comes from: `github:` and the full name of its repository.
pub fn source_of(repo: Option<Repository>) -> (r: Option<String>)
    ensures
        r.deep_view() == source_text(repo.deep_view()),
{
    match repo {
        Some(repository) => match repository.full_name {
            Some(name) => Some(joined2("github:", name.as_str())),
            None => None,
        },
        None => None,
    }
}

/// The parts of an envelope derivable purely from the request (no uuid/clock).
#[derive(Debug, Clone, PartialEq, Eq)]
pub struct Dispatch {
    pub action: String,
    pub target: String,
    pub args: TextMap<String>,
    pub source: Option<String>,
}

/// What a [`Dispatch`] says.
pub struct DispatchModel {
    pub action: Seq<char>,
    pub target: Seq<char>,
    pub args: Seq<(Seq<char>, Seq<char>)>,
    pub source: Option<Seq<char>>,
}

impl DeepView for Dispatch {
    type V = DispatchModel;

    open spec fn deep_view(&self) -> DispatchModel {
        DispatchModel {
            action: self.action@,
            target: self.target@,
            args: self.args.deep_view(),
            source: self.source.deep_view(),
        }
    }
}

/// What the request should result in — the pure decision, sans IO.
#[derive(Debug, Clone, PartialEq, Eq)]
pub enum Outcome {
    /// GitHub webhook `ping` — acknowledge, do nothing.
    Pong,
    /// Signature missing or wrong — reject.
    Unauthorized,
    /// Valid but nothing to do (non-push event, or branch didn't match).
    Ignored(&'static str),
    /// Verified & matched — dispatch this to the fleet.
    Dispatch(Dispatch),
}

/// What an [`Outcome`] says.
pub enum OutcomeModel {
    Pong,
    Unauthorized,
    Ignored(Seq<char>),
    Dispatch(DispatchModel),
}

impl DeepView for Outcome {
    type V = OutcomeModel;

    open spec fn deep_view(&self) -> OutcomeModel {
        match self {
            Outcome::Pong => OutcomeModel::Pong,
            Outcome::Unauthorized => OutcomeModel::Unauthorized,
            Outcome::Ignored(why) => OutcomeModel::Ignored(why@),
            Outcome::Dispatch(d) => OutcomeModel::Dispatch(d.deep_view()),
        }
    }
}

// ---------------------------------------------------------------------------
// Before the payload is read

/// What is known of a request before its payload is read: its outcome, or that
/// the outcome depends on the payload.
#[derive(Debug, Clone, PartialEq, Eq)]
pub enum Admission {
    Settled(Outcome),
    /// Signed, and an event that the hook listens to.
    Open,
}

/// What an [`Admission`] says.
pub enum AdmissionModel {
    Settled(OutcomeModel),
    Open,
}

impl DeepView for Admission {
    type V = AdmissionModel;

    open spec fn deep_view(&self) -> AdmissionModel {
        match self {
            Admission::Settled(outcome) => AdmissionModel::Settled(outcome.deep_view()),
            Admission::Open => AdmissionModel::Open,
        }
    }
}

/// What is known of a request with this event name before its payload is read,
/// where `signed` says whether it carries a signature of the hook.
pub open spec fn admission(
    trigger: Trigger,
    event: Option<Seq<char>>,
    signed: bool,
) -> AdmissionModel {
    if event == Some("ping"@) {
        AdmissionModel::Settled(OutcomeModel::Pong)
    } else if !signed {
        AdmissionModel::Settled(OutcomeModel::Unauthorized)
    } else if trigger == Trigger::Push && event != Some("push"@) {
        AdmissionModel::Settled(OutcomeModel::Ignored("non-push event"@))
    } else if trigger == Trigger::Release && event != Some("release"@) {
        AdmissionModel::Settled(OutcomeModel::Ignored("non-release event"@))
    } else {
        AdmissionModel::Open
    }
}

/// Whether there is a text, and it is `expected`.
fn is_text(text: Option<&str>, expected: &str) -> (r: bool)
    ensures
        r == (text.deep_view() == Some(expected@)),
{
    match text {
        Some(t) => same_text(t, expected),
        None => false,
    }
}

/// What is known of a request before its payload is read.
pub fn screen(trigger: Trigger, event: Option<&str>, signed: bool) -> (r: Admission)
    ensures
        r.deep_view() == admission(trigger, event.deep_view(), signed),
{
    if is_text(event, "ping") {
        return Admission::Settled(Outcome::Pong);
    }
    // Everything else must be signed.
    if !signed {
        return Admission::Settled(Outcome::Unauthorized);
    }
    match trigger {
        Trigger::Push => if is_text(event, "push") {
            Admission::Open
        } else {
            Admission::Settled(Outcome::Ignored("non-push event"))
        },
        Trigger::Release => if is_text(event, "release") {
            Admission::Open
        } else {
            Admission::Settled(Outcome::Ignored("non-release event"))
        },
        Trigger::Any => Admission::Open,
    }
}

// ---------------------------------------------------------------------------
// With the payload

/// A dispatch of the hook's action to the hook's target.
pub open spec fn dispatched(
    hook: HookModel,
    args: Seq<(Seq<char>, Seq<char>)>,
    repo: Option<RepositoryModel>,
) -> OutcomeModel {
    OutcomeModel::Dispatch(
        DispatchModel {
            action: hook.action,
            target: hook.target,
            args,
            source: source_text(repo),
        },
    )
}

/// A dispatch of the hook's action to the hook's target.
fn dispatch_of(hook: &HookConfig, args: TextMap<String>, repo: Option<Repository>) -> (r: Outcome)
    ensures
        r.deep_view() == dispatched(hook.deep_view(), args.deep_view(), repo.deep_view()),
{
    Outcome::Dispatch(
        Dispatch {
            action: hook.action.clone(),
            target: hook.target.clone(),
            args,
            source: source_of(repo),
        },
    )
}

/// The args that a push brings: the pushed head commit, where the hook forwards
/// it and the payload has one.
pub open spec fn push_args(hook: HookModel, after: Option<Seq<char>>) -> Seq<
    (Seq<char>, Seq<char>),
> {
    match after {
        Some(commit) => if hook.forward_sha && commit.len() > 0 {
            seq![("sha"@, commit)]
        } else {
            Seq::empty()
        },
        None => Seq::empty(),
    }
}

/// What a signed push to a push-triggered hook results in.
pub open spec fn push_result(hook: HookModel, push: PushModel) -> OutcomeModel {
    if push.git_ref == Some("refs/heads/"@ + hook.branch) {
        dispatched(hook, push_args(hook, push.after), push.repository)
    } else {
        OutcomeModel::Ignored("branch not matched"@)
    }
}

/// What a signed push to a push-triggered hook results in: a dispatch where it is
/// to the hook's branch.
pub fn push_outcome(hook: &HookConfig, push: GithubPush) -> (r: Outcome)
    ensures
        r.deep_view() == push_result(hook.deep_view(), push.deep_view()),
{
    let want_ref = joined2("refs/heads/", hook.branch.as_str());
    let matched = match &push.git_ref {
        Some(git_ref) => same_text(git_ref.as_str(), want_ref.as_str()),
        None => false,
    };
    if !matched {
        return Outcome::Ignored("branch not matched");
    }
    let mut args: TextMap<String> = TextMap::new();
    assert(args.deep_view() =~= Seq::empty());
    if hook.forward_sha {
        if let Some(after) = push.after {
            if !after.as_str().is_empty() {
                args.insert("sha".to_owned(), after);
                assert(args.deep_view() =~= seq![("sha"@, after@)]);
            }
        }
    }
    dispatch_of(hook, args, push.repository)
}

/// The release actions that bring a new build. A rolling "latest" release that
/// CI re-uploads assets to is `edited`; only `deleted` and `unpublished`, and
/// what is unknown, bring none.
pub open spec fn brings_build(action: Option<Seq<char>>) -> bool {
    match action {
        Some(a) => a == "created"@ || a == "published"@ || a == "released"@ || a == "prereleased"@
            || a == "edited"@,
        None => false,
    }
}

/// What a signed release event at a release-triggered hook results in.
pub open spec fn release_result(hook: HookModel, release: ReleaseModel) -> OutcomeModel {
    if brings_build(release.action) {
        dispatched(hook, Seq::empty(), release.repository)
    } else {
        OutcomeModel::Ignored("release action ignored"@)
    }
}

/// What a signed release event at a release-triggered hook results in: a dispatch
/// where it brings a new build.
pub fn release_outcome(hook: &HookConfig, release: GithubRelease) -> (r: Outcome)
    ensures
        r.deep_view() == release_result(hook.deep_view(), release.deep_view()),
{
    let brings = match &release.action {
        Some(a) => same_text(a.as_str(), "created") || same_text(a.as_str(), "published")
            || same_text(a.as_str(), "released") || same_text(a.as_str(), "prereleased")
            || same_text(a.as_str(), "edited"),
        None => false,
    };
    if !brings {
        return Outcome::Ignored("release action ignored");
    }
    dispatch_of(hook, TextMap::new(), release.repository)
}

/// What a signed request to a hook that any request triggers results in.
pub open spec fn any_result(hook: HookModel, payload: Option<ReleaseModel>) -> OutcomeModel {
    dispatched(
        hook,
        Seq::empty(),
        match payload {
            Some(release) => release.repository,
            None => None,
        },
    )
}

/// What a signed request to a hook that any request triggers results in: a
/// dispatch, with a best-effort source where the body carries a repository.
pub fn any_outcome(hook: &HookConfig, payload: Option<GithubRelease>) -> (r: Outcome)
    ensures
        r.deep_view() == any_result(hook.deep_view(), payload.deep_view()),
{
    let repository = match payload {
        Some(release) => release.repository,
        None => None,
    };
    dispatch_of(hook, TextMap::new(), repository)
}

// ---------------------------------------------------------------------------
// The whole decision

/// What a push-triggered hook decides by what was read of the payload, which has
/// to be a push.
pub open spec fn push_decision<E>(hook: HookModel, read: Result<PushModel, E>) -> Result<
    OutcomeModel,
    E,
> {
    match read {
        Ok(push) => Ok(push_result(hook, push)),
        Err(e) => Err(e),
    }
}

/// What any other hook decides by what was read of the payload. It has to be a
/// release where the hook listens to releases; a hook that any request triggers
/// does without it.
pub open spec fn release_decision<E>(hook: HookModel, read: Result<ReleaseModel, E>) -> Result<
    OutcomeModel,
    E,
> {
    if hook.trigger == Trigger::Any {
        Ok(
            any_result(
                hook,
                match read {
                    Ok(release) => Some(release),
                    Err(_) => None,
                },
            ),
        )
    } else {
        match read {
            Ok(release) => Ok(release_result(hook, release)),
            Err(e) => Err(e),
        }
    }
}

/// The decision on a request, where `push` and `release` are what is read of its
/// body as a push and as a release.
pub open spec fn decision<E>(
    hook: HookModel,
    event: Option<Seq<char>>,
    sig: Option<Seq<char>>,
    body: Seq<u8>,
    push: Result<PushModel, E>,
    release: Result<ReleaseModel, E>,
) -> Result<OutcomeModel, E> {
    match admission(hook.trigger, event, is_signed(hook, sig, body)) {
        AdmissionModel::Settled(outcome) => Ok(outcome),
        AdmissionModel::Open => if hook.trigger == Trigger::Push {
            push_decision(hook, push)
        } else {
            release_decision(hook, release)
        },
    }
}

/// The model of a result with any error.
pub open spec fn ok_model<T: DeepView, E>(r: Result<T, E>) -> Result<T::V, E> {
    match r {
        Ok(t) => Ok(t.deep_view()),
        Err(e) => Err(e),
    }
}

/// Whether a request carries a signature of the hook.
pub open spec fn is_signed(hook: HookModel, sig: Option<Seq<char>>, body: Seq<u8>) -> bool {
    match sig {
        Some(header) => signs(hook.secret, body, header),
        None => false,
    }
}

/// Whether a request carries a signature of the hook.
pub fn signed(hook: &HookConfig, sig: Option<&str>, body: &[u8]) -> (r: bool)
    ensures
        r == is_signed(hook.deep_view(), sig.deep_view(), body@),
{
    match sig {
        Some(header) => verify_sig(hook.secret.as_str(), body, header),
        None => false,
    }
}

/// The pure ingress decision: given the hook config, the GitHub event name, the
/// signature header, and the raw body, decide what to do. No IO, no clock.
///
/// `read_push` and `read_release` read a payload from the raw body. They are
/// called on the body as it was signed, and only where the outcome depends on
/// the payload; an error of the one that is called is the error of the decision.
pub fn evaluate<E, P, R>(
    hook: &HookConfig,
    event: Option<&str>,
    sig: Option<&str>,
    body: &[u8],
    read_push: P,
    read_release: R,
) -> (r: Result<Outcome, E>) where
    P: Fn(&[u8]) -> Result<GithubPush, E>,
    R: Fn(&[u8]) -> Result<GithubRelease, E>,

    requires
        call_requires(read_push, (body,)),
        call_requires(read_release, (body,)),
    ensures
        match admission(
            hook.trigger,
            event.deep_view(),
            is_signed(hook.deep_view(), sig.deep_view(), body@),
        ) {
            AdmissionModel::Settled(outcome) => ok_model(r) == Result::<OutcomeModel, E>::Ok(
                outcome,
            ),
            AdmissionModel::Open => if hook.trigger == Trigger::Push {
                exists|read: Result<GithubPush, E>| #[trigger]
                    call_ensures(read_push, (body,), read) && ok_model(r) == push_decision(
                        hook.deep_view(),
                        ok_model(read),
                    )
            } else {
                exists|read: Result<GithubRelease, E>| #[trigger]
                    call_ensures(read_release, (body,), read) && ok_model(r) == release_decision(
                        hook.deep_view(),
                        ok_model(read),
                    )
            },
        },
        exists|push: Result<PushModel, E>, release: Result<ReleaseModel, E>|
            ok_model(r) == #[trigger] decision(
                hook.deep_view(),
                event.deep_view(),
                sig.deep_view(),
                body@,
                push,
                release,
            ),
{
    let ghost no_push: Result<PushModel, E> = arbitrary();
    let ghost no_release: Result<ReleaseModel, E> = arbitrary();
    let ghost h = hook.deep_view();
    let ghost e = event.deep_view();
    let ghost s = sig.deep_view();
    let admitted = screen(hook.trigger, event, signed(hook, sig, body));
    let r = match admitted {
        Admission::Settled(outcome) => {
            let r = Ok(outcome);
            assert(ok_model(r) == decision(h, e, s, body@, no_push, no_release));
            r
        },
        Admission::Open => match hook.trigger {
            Trigger::Push => {
                let read = read_push(body);
                let ghost push = ok_model(read);
                let r = match read {
                    Ok(push) => Ok(push_outcome(hook, push)),
                    Err(e) => Err(e),
                };
                assert(ok_model(r) == decision(h, e, s, body@, push, no_release));
                r
            },
            Trigger::Release => {
                let read = read_release(body);
                let ghost release = ok_model(read);
                let r = match read {
                    Ok(release) => Ok(release_outcome(hook, release)),
                    Err(e) => Err(e),
                };
                assert(ok_model(r) == decision(h, e, s, body@, no_push, release));
                r
            },
            Trigger::Any => {
                let read = read_release(body);
                let ghost release = ok_model(read);
                let r = match read {
                    Ok(release) => Ok(any_outcome(hook, Some(release))),
                    Err(_) => Ok(any_outcome(hook, None)),
                };
                assert(ok_model(r) == decision(h, e, s, body@, no_push, release));
                r
            },
        },
    };
    r
}

// ---------------------------------------------------------------------------
// What holds of every decision

/// A ping is acknowledged whatever its signature; of the rest, what is not
/// signed is refused, whatever the hook, the event and the body are.
pub proof fn law_unsigned_is_refused(trigger: Trigger, event: Option<Seq<char>>, signed: bool)
    ensures
        event == Some("ping"@) ==> admission(trigger, event, signed) == AdmissionModel::Settled(
            OutcomeModel::Pong,
        ),
        event != Some("ping"@) && !signed ==> admission(trigger, event, signed)
            == AdmissionModel::Settled(OutcomeModel::Unauthorized),
        admission(trigger, event, signed) == AdmissionModel::Settled(OutcomeModel::Unauthorized)
            ==> !signed,
{
}

/// Nothing is dispatched before the payload is read, and a payload is read only
/// of a signed request.
pub proof fn law_only_signed_requests_dispatch(
    trigger: Trigger,
    event: Option<Seq<char>>,
    signed: bool,
)
    ensures
        admission(trigger, event, signed) is Open ==> signed,
        admission(trigger, event, signed) matches AdmissionModel::Settled(outcome) ==> !(
        outcome is Dispatch),
{
}

/// A dispatch names the action and the target of the hook, never anything out of
/// the payload.
pub proof fn law_dispatch_is_the_hooks(
    hook: HookModel,
    push: PushModel,
    release: ReleaseModel,
    payload: Option<ReleaseModel>,
)
    ensures
        push_result(hook, push) matches OutcomeModel::Dispatch(d) ==> d.action == hook.action
            && d.target == hook.target,
        release_result(hook, release) matches OutcomeModel::Dispatch(d) ==> d.action == hook.action
            && d.target == hook.target,
        any_result(hook, payload) matches OutcomeModel::Dispatch(d) && d.action == hook.action
            && d.target == hook.target,
{
}

/// The only arg that a dispatch can bring is the pushed commit, under the name
/// `sha`, and only from a hook that forwards it.
pub proof fn law_only_commits_are_forwarded(
    hook: HookModel,
    push: PushModel,
    release: ReleaseModel,
    payload: Option<ReleaseModel>,
)
    ensures
        push_result(hook, push) matches OutcomeModel::Dispatch(d) ==> if hook.forward_sha && (
        push.after matches Some(commit) && commit.len() > 0) {
            d.args == seq![("sha"@, push.after->0)]
        } else {
            d.args.len() == 0
        },
        release_result(hook, release) matches OutcomeModel::Dispatch(d) ==> d.args.len() == 0,
        any_result(hook, payload) matches OutcomeModel::Dispatch(d) && d.args.len() == 0,
{
}

/// A push to a branch other than the hook's is ignored.
pub proof fn law_other_branches_are_ignored(hook: HookModel, push: PushModel, branch: Seq<char>)
    requires
        push.git_ref == Some("refs/heads/"@ + branch),
        branch != hook.branch,
    ensures
        push_result(hook, push) == OutcomeModel::Ignored("branch not matched"@),
{
    let prefix = "refs/heads/"@;
    if prefix + branch == prefix + hook.branch {
        assert((prefix + branch).skip(prefix.len() as int) =~= branch);
        assert((prefix + hook.branch).skip(prefix.len() as int) =~= hook.branch);
    }
}

} // verus!
