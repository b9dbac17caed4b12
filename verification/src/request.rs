//! A webhook request at the distributor, from its arrival to its reply.
//!
//! The request is worked off in steps. Each step says in a [`Next`] what has to
//! be done outside (load a parameter, read a payload, send a message), and goes
//! on with what came of it. What may only happen to a signed request takes a
//! value that comes from nothing but a verified signature.
use crate::ingress::{
    admission, any_outcome, is_signed, push_decision, push_outcome, release_decision,
    release_outcome, screen, Admission, AdmissionModel, Dispatch, DispatchModel, GithubPush,
    GithubRelease, HookConfig, HookModel, Outcome, OutcomeModel, PushModel, ReleaseModel, Trigger,
};
use crate::message::{Envelope, EnvelopeModel, NotifyEvent, NotifyModel};
use crate::signature::{signs, verify_sig};
use crate::stamp::{new_id, now_rfc3339, random_uuid, utc_stamp};
use crate::text::{
    decimal, decimal_text, end_stripped, joined2, joined3, strip_end, strip_prefix, without_prefix,
};
use crate::text_map::TextMap;
use vstd::prelude::*;

verus! {

// ---------------------------------------------------------------------------
// Replies

/// An HTTP reply.
#[derive(Debug, Clone, PartialEq, Eq)]
pub struct Reply {
    pub status: u16,
    pub content_type: String,
    pub body: String,
}

/// What a [`Reply`] says.
pub struct ReplyModel {
    pub status: u16,
    pub content_type: Seq<char>,
    pub body: Seq<char>,
}

impl DeepView for Reply {
    type V = ReplyModel;

    open spec fn deep_view(&self) -> ReplyModel {
        ReplyModel {
            status: self.status,
            content_type: self.content_type@,
            body: self.body@,
        }
    }
}

/// A reply of one line of plain text.
pub open spec fn plain_reply(status: u16, msg: Seq<char>) -> ReplyModel {
    ReplyModel { status, content_type: "text/plain"@, body: msg + "\n"@ }
}

/// A reply of one line of plain text.
pub fn resp(status: u16, msg: &str) -> (r: Reply)
    ensures
        r.deep_view() == plain_reply(status, msg@),
{
    Reply { status, content_type: "text/plain".to_owned(), body: joined2(msg, "\n") }
}

// ---------------------------------------------------------------------------
// The id of the hook

/// The id of the hook that a request is for: the path parameter, or else what
/// stands in the path behind `/hooks/`, without slashes at its end.
pub open spec fn requested_hook(param: Option<Seq<char>>, path: Seq<char>) -> Option<Seq<char>> {
    match (param, without_prefix(path, "/hooks/"@)) {
        (Some(id), _) => Some(id),
        (None, Some(rest)) => if end_stripped(rest, '/').len() > 0 {
            Some(end_stripped(rest, '/'))
        } else {
            None
        },
        (None, None) => None,
    }
}

/// The id of the hook that a request is for.
pub fn hook_id(param: Option<String>, path: &str) -> (r: Option<String>)
    ensures
        r.deep_view() == requested_hook(param.deep_view(), path@),
{
    match param {
        Some(id) => Some(id),
        None => match strip_prefix(path, "/hooks/") {
            Some(rest) => {
                let id = strip_end(rest.as_str(), '/');
                if id.as_str().is_empty() {
                    None
                } else {
                    Some(id)
                }
            },
            None => None,
        },
    }
}

/// The name of the parameter that holds a hook's definition.
pub open spec fn hook_parameter_name(id: Seq<char>) -> Seq<char> {
    "/flotswarm/hooks/"@ + id
}

/// The name of the parameter that holds a hook's definition.
pub fn hook_parameter(id: &str) -> (r: String)
    ensures
        r@ == "/flotswarm/hooks/"@ + id@,
        r@ == hook_parameter_name(id@),
{
    joined2("/flotswarm/hooks/", id)
}

/// The name of the parameter that holds the routing table.
pub open spec fn routing_parameter_name() -> Seq<char> {
    "/flotswarm/routing"@
}

/// The name of the parameter that holds the routing table.
pub fn routing_parameter() -> (r: String)
    ensures
        r@ == "/flotswarm/routing"@,
        r@ == routing_parameter_name(),
{
    "/flotswarm/routing".to_owned()
}

// ---------------------------------------------------------------------------
// What comes from outside

/// What an HTTP request carries.
#[derive(Debug, Clone)]
pub struct Request {
    /// The path parameter `id`.
    pub param: Option<String>,
    pub path: String,
    /// `X-GitHub-Event`.
    pub event: Option<String>,
    /// `X-Hub-Signature-256`.
    pub sig: Option<String>,
    pub body: Vec<u8>,
}

/// What a [`Request`] says.
pub struct RequestModel {
    pub param: Option<Seq<char>>,
    pub path: Seq<char>,
    pub event: Option<Seq<char>>,
    pub sig: Option<Seq<char>>,
    pub body: Seq<u8>,
}

impl DeepView for Request {
    type V = RequestModel;

    open spec fn deep_view(&self) -> RequestModel {
        RequestModel {
            param: self.param.deep_view(),
            path: self.path@,
            event: self.event.deep_view(),
            sig: self.sig.deep_view(),
            body: self.body@,
        }
    }
}

/// What came of loading a hook's definition.
#[derive(Debug, Clone)]
pub enum HookLoad {
    Found(HookConfig),
    /// There is no such parameter.
    Missing,
    /// The parameter does not hold a hook's definition; the text says why.
    Malformed(String),
    /// The parameter could not be loaded; the text says why.
    Failed(String),
}

/// What a [`HookLoad`] says.
pub enum HookLoadModel {
    Found(HookModel),
    Missing,
    Malformed(Seq<char>),
    Failed(Seq<char>),
}

impl DeepView for HookLoad {
    type V = HookLoadModel;

    open spec fn deep_view(&self) -> HookLoadModel {
        match self {
            HookLoad::Found(hook) => HookLoadModel::Found(hook.deep_view()),
            HookLoad::Missing => HookLoadModel::Missing,
            HookLoad::Malformed(e) => HookLoadModel::Malformed(e@),
            HookLoad::Failed(e) => HookLoadModel::Failed(e@),
        }
    }
}

/// What came of loading the routing table.
#[derive(Debug, Clone)]
pub enum RoutingLoad {
    /// The queue of each host, by its URL.
    Found(TextMap<String>),
    /// There is no table.
    Missing,
    /// The table could not be loaded or read; the text says why.
    Failed(String),
}

/// What a [`RoutingLoad`] says.
pub enum RoutingLoadModel {
    Found(Seq<(Seq<char>, Seq<char>)>),
    Missing,
    Failed(Seq<char>),
}

impl DeepView for RoutingLoad {
    type V = RoutingLoadModel;

    open spec fn deep_view(&self) -> RoutingLoadModel {
        match self {
            RoutingLoad::Found(queues) => RoutingLoadModel::Found(queues.deep_view()),
            RoutingLoad::Missing => RoutingLoadModel::Missing,
            RoutingLoad::Failed(e) => RoutingLoadModel::Failed(e@),
        }
    }
}

/// The model of a result whose error is a text.
pub open spec fn read_model<T: DeepView>(r: Result<T, String>) -> Result<T::V, Seq<char>> {
    match r {
        Ok(t) => Ok(t.deep_view()),
        Err(e) => Err(e@),
    }
}

// ---------------------------------------------------------------------------
// Where a request stands

/// A request whose hook has to be loaded.
#[derive(Debug)]
pub struct HookLookup {
    hook_id: String,
    event: Option<String>,
    sig: Option<String>,
    body: Vec<u8>,
}

/// What a [`HookLookup`] says.
pub struct LookupModel {
    pub hook_id: Seq<char>,
    pub event: Option<Seq<char>>,
    pub sig: Option<Seq<char>>,
    pub body: Seq<u8>,
}

impl DeepView for HookLookup {
    type V = LookupModel;

    closed spec fn deep_view(&self) -> LookupModel {
        LookupModel {
            hook_id: self.hook_id@,
            event: self.event.deep_view(),
            sig: self.sig.deep_view(),
            body: self.body@,
        }
    }
}

/// A request whose signature has been verified: its body is signed under the
/// secret of its hook.
#[derive(Debug)]
pub struct Signed {
    hook_id: String,
    hook: HookConfig,
    header: String,
    body: Vec<u8>,
}

/// What a [`Signed`] says.
pub struct SignedModel {
    pub hook_id: Seq<char>,
    pub hook: HookModel,
    pub header: Seq<char>,
    pub body: Seq<u8>,
}

impl DeepView for Signed {
    type V = SignedModel;

    closed spec fn deep_view(&self) -> SignedModel {
        SignedModel {
            hook_id: self.hook_id@,
            hook: self.hook.deep_view(),
            header: self.header@,
            body: self.body@,
        }
    }
}

/// A dispatch that needs a message id and a time stamp.
#[derive(Debug)]
pub struct Stamping {
    hook_id: String,
    dispatch: Dispatch,
}

/// What a [`Stamping`] says.
pub struct StampingModel {
    pub hook_id: Seq<char>,
    pub dispatch: DispatchModel,
}

impl DeepView for Stamping {
    type V = StampingModel;

    closed spec fn deep_view(&self) -> StampingModel {
        StampingModel { hook_id: self.hook_id@, dispatch: self.dispatch.deep_view() }
    }
}

/// A message that needs the routing table.
#[derive(Debug)]
pub struct Routing {
    hook_id: String,
    envelope: Envelope,
}

/// What a [`Routing`] says.
pub struct RoutingModel {
    pub hook_id: Seq<char>,
    pub envelope: EnvelopeModel,
}

impl DeepView for Routing {
    type V = RoutingModel;

    closed spec fn deep_view(&self) -> RoutingModel {
        RoutingModel { hook_id: self.hook_id@, envelope: self.envelope.deep_view() }
    }
}

/// A message that is being sent to every queue, in the order of the hosts.
#[derive(Debug)]
pub struct Sending {
    hook_id: String,
    envelope: Envelope,
    queues: TextMap<String>,
    sent: usize,
}

/// What a [`Sending`] says.
pub struct SendingModel {
    pub hook_id: Seq<char>,
    pub envelope: EnvelopeModel,
    pub queues: Seq<(Seq<char>, Seq<char>)>,
    /// How many of the queues have the message.
    pub sent: int,
}

impl DeepView for Sending {
    type V = SendingModel;

    closed spec fn deep_view(&self) -> SendingModel {
        SendingModel {
            hook_id: self.hook_id@,
            envelope: self.envelope.deep_view(),
            queues: self.queues.deep_view(),
            sent: self.sent as int,
        }
    }
}

/// A message that every queue has, to be announced before the reply.
#[derive(Debug)]
pub struct Announcing {
    event: NotifyEvent,
    reply: Reply,
}

/// What an [`Announcing`] says.
pub struct AnnouncingModel {
    pub event: NotifyModel,
    pub reply: ReplyModel,
}

impl DeepView for Announcing {
    type V = AnnouncingModel;

    closed spec fn deep_view(&self) -> AnnouncingModel {
        AnnouncingModel { event: self.event.deep_view(), reply: self.reply.deep_view() }
    }
}

/// What has to be done next for a request.
#[derive(Debug)]
pub enum Next {
    /// Load the hook's definition.
    LoadHook(HookLookup),
    /// Read the body as a push payload.
    ReadPush(Signed),
    /// Read the body as a release payload.
    ReadRelease(Signed),
    /// Stamp the dispatch with a message id and the time.
    Stamp(Stamping),
    /// Load the routing table.
    LoadRouting(Routing),
    /// Send the message to the next queue.
    Send(Sending),
    /// Publish the event, best-effort.
    Announce(Announcing),
    /// The request is answered.
    Reply(Reply),
    /// The request fails; the text says why.
    Fail(String),
}

/// What a [`Next`] says.
pub enum NextModel {
    LoadHook(LookupModel),
    ReadPush(SignedModel),
    ReadRelease(SignedModel),
    Stamp(StampingModel),
    LoadRouting(RoutingModel),
    Send(SendingModel),
    Announce(AnnouncingModel),
    Reply(ReplyModel),
    Fail(Seq<char>),
}

impl DeepView for Next {
    type V = NextModel;

    open spec fn deep_view(&self) -> NextModel {
        match self {
            Next::LoadHook(s) => NextModel::LoadHook(s.deep_view()),
            Next::ReadPush(s) => NextModel::ReadPush(s.deep_view()),
            Next::ReadRelease(s) => NextModel::ReadRelease(s.deep_view()),
            Next::Stamp(s) => NextModel::Stamp(s.deep_view()),
            Next::LoadRouting(s) => NextModel::LoadRouting(s.deep_view()),
            Next::Send(s) => NextModel::Send(s.deep_view()),
            Next::Announce(s) => NextModel::Announce(s.deep_view()),
            Next::Reply(reply) => NextModel::Reply(reply.deep_view()),
            Next::Fail(e) => NextModel::Fail(e@),
        }
    }
}

// ---------------------------------------------------------------------------
// Arrival

/// What a request starts with.
pub open spec fn first_step(request: RequestModel) -> NextModel {
    match requested_hook(request.param, request.path) {
        Some(hook_id) => NextModel::LoadHook(
            LookupModel { hook_id, event: request.event, sig: request.sig, body: request.body },
        ),
        None => NextModel::Reply(plain_reply(400, "missing hook id"@)),
    }
}

impl Request {
    /// Starts with a request: finds the id of its hook.
    pub fn begin(self) -> (r: Next)
        ensures
            r.deep_view() == first_step(self.deep_view()),
    {
        match hook_id(self.param, self.path.as_str()) {
            Some(hook_id) => Next::LoadHook(
                HookLookup { hook_id, event: self.event, sig: self.sig, body: self.body },
            ),
            None => Next::Reply(resp(400, "missing hook id")),
        }
    }
}

// ---------------------------------------------------------------------------
// The hook

/// What follows an outcome.
pub open spec fn settled_step(hook_id: Seq<char>, outcome: OutcomeModel) -> NextModel {
    match outcome {
        OutcomeModel::Pong => NextModel::Reply(plain_reply(200, "pong"@)),
        OutcomeModel::Unauthorized => NextModel::Reply(plain_reply(401, "bad signature"@)),
        OutcomeModel::Ignored(why) => NextModel::Reply(plain_reply(200, why)),
        OutcomeModel::Dispatch(dispatch) => NextModel::Stamp(StampingModel { hook_id, dispatch }),
    }
}

/// What follows the loading of a hook.
pub open spec fn hook_step(lookup: LookupModel, load: HookLoadModel) -> NextModel {
    match load {
        HookLoadModel::Found(hook) => match admission(
            hook.trigger,
            lookup.event,
            is_signed(hook, lookup.sig, lookup.body),
        ) {
            AdmissionModel::Settled(outcome) => settled_step(lookup.hook_id, outcome),
            AdmissionModel::Open => {
                let signed = SignedModel {
                    hook_id: lookup.hook_id,
                    hook,
                    header: lookup.sig->0,
                    body: lookup.body,
                };
                if hook.trigger == Trigger::Push {
                    NextModel::ReadPush(signed)
                } else {
                    NextModel::ReadRelease(signed)
                }
            },
        },
        HookLoadModel::Missing => NextModel::Reply(plain_reply(404, "unknown hook"@)),
        HookLoadModel::Malformed(e) => NextModel::Fail(
            "hook "@ + lookup.hook_id + " config is not valid JSON: "@ + e,
        ),
        HookLoadModel::Failed(e) => NextModel::Fail(e),
    }
}

/// What follows an outcome: a reply, or a dispatch to be stamped.
fn answer(outcome: Outcome, hook_id: String) -> (r: Next)
    ensures
        r.deep_view() == settled_step(hook_id@, outcome.deep_view()),
{
    match outcome {
        Outcome::Pong => Next::Reply(resp(200, "pong")),
        Outcome::Unauthorized => Next::Reply(resp(401, "bad signature")),
        Outcome::Ignored(why) => Next::Reply(resp(200, why)),
        Outcome::Dispatch(dispatch) => Next::Stamp(Stamping { hook_id, dispatch }),
    }
}

impl HookLookup {
    /// The name of the parameter to load.
    pub fn parameter(&self) -> (r: String)
        ensures
            r@ == "/flotswarm/hooks/"@ + self.deep_view().hook_id,
            r@ == hook_parameter_name(self.deep_view().hook_id),
    {
        hook_parameter(self.hook_id.as_str())
    }

    /// Goes on with the hook: decides whether the request is signed and of
    /// interest.
    pub fn loaded(self, load: HookLoad) -> (r: Next)
        ensures
            r.deep_view() == hook_step(self.deep_view(), load.deep_view()),
    {
        let hook = match load {
            HookLoad::Found(hook) => hook,
            HookLoad::Missing => {
                return Next::Reply(resp(404, "unknown hook"));
            },
            HookLoad::Malformed(e) => {
                let start = joined3("hook ", self.hook_id.as_str(), " config is not valid JSON: ");
                return Next::Fail(joined2(start.as_str(), e.as_str()));
            },
            HookLoad::Failed(e) => {
                return Next::Fail(e);
            },
        };
        let header = match &self.sig {
            Some(header) => if verify_sig(
                hook.secret.as_str(),
                self.body.as_slice(),
                header.as_str(),
            ) {
                Some(header.clone())
            } else {
                None
            },
            None => None,
        };
        let event = match &self.event {
            Some(event) => Some(event.as_str()),
            None => None,
        };
        match (screen(hook.trigger, event, header.is_some()), header) {
            (Admission::Settled(outcome), _) => answer(outcome, self.hook_id),
            (Admission::Open, Some(header)) => {
                let push = match hook.trigger {
                    Trigger::Push => true,
                    Trigger::Release => false,
                    Trigger::Any => false,
                };
                let signed = Signed { hook_id: self.hook_id, hook, header, body: self.body };
                if push {
                    Next::ReadPush(signed)
                } else {
                    Next::ReadRelease(signed)
                }
            },
            (Admission::Open, None) => Next::Reply(resp(401, "bad signature")),
        }
    }
}

// ---------------------------------------------------------------------------
// The payload

/// What follows a decision by the payload: its outcome, or a reply that says why
/// the payload could not be read.
pub open spec fn payload_step(
    hook_id: Seq<char>,
    decided: Result<OutcomeModel, Seq<char>>,
) -> NextModel {
    match decided {
        Ok(outcome) => settled_step(hook_id, outcome),
        Err(e) => NextModel::Reply(plain_reply(400, "bad payload: "@ + e)),
    }
}

/// What follows the reading of a push payload.
pub open spec fn push_step(signed: SignedModel, read: Result<PushModel, Seq<char>>) -> NextModel {
    payload_step(signed.hook_id, push_decision(signed.hook, read))
}

/// What follows the reading of a release payload.
pub open spec fn release_step(
    signed: SignedModel,
    read: Result<ReleaseModel, Seq<char>>,
) -> NextModel {
    payload_step(signed.hook_id, release_decision(signed.hook, read))
}

impl Signed {
    #[verifier::type_invariant]
    spec fn verified(self) -> bool {
        signs(self.hook.secret@, self.body@, self.header@)
    }

    /// The body to read, which is signed under the secret of the hook.
    pub fn body(&self) -> (r: &Vec<u8>)
        ensures
            r@ == self.deep_view().body,
            signs(self.deep_view().hook.secret, self.deep_view().body, self.deep_view().header),
    {
        proof {
            use_type_invariant(self);
        }
        &self.body
    }

    /// Goes on with the push payload.
    pub fn push_read(self, read: Result<GithubPush, String>) -> (r: Next)
        ensures
            r.deep_view() == push_step(self.deep_view(), read_model(read)),
    {
        match read {
            Ok(push) => answer(push_outcome(&self.hook, push), self.hook_id),
            Err(e) => Next::Reply(resp(400, joined2("bad payload: ", e.as_str()).as_str())),
        }
    }

    /// Goes on with the release payload.
    pub fn release_read(self, read: Result<GithubRelease, String>) -> (r: Next)
        ensures
            r.deep_view() == release_step(self.deep_view(), read_model(read)),
    {
        let any = match self.hook.trigger {
            Trigger::Any => true,
            Trigger::Push => false,
            Trigger::Release => false,
        };
        match read {
            Ok(release) => if any {
                answer(any_outcome(&self.hook, Some(release)), self.hook_id)
            } else {
                answer(release_outcome(&self.hook, release), self.hook_id)
            },
            Err(e) => if any {
                answer(any_outcome(&self.hook, None), self.hook_id)
            } else {
                Next::Reply(resp(400, joined2("bad payload: ", e.as_str()).as_str()))
            },
        }
    }
}

// ---------------------------------------------------------------------------
// The message

/// The message that a dispatch becomes.
pub open spec fn stamped_envelope(
    dispatch: DispatchModel,
    id: Seq<char>,
    ts: Seq<char>,
) -> EnvelopeModel {
    EnvelopeModel {
        id,
        action: dispatch.action,
        target: dispatch.target,
        args: dispatch.args,
        source: dispatch.source,
        ts,
    }
}

impl Stamping {
    /// Goes on with a message id and a time stamp: makes the message.
    pub fn stamped(self, id: String, ts: String) -> (r: Next)
        ensures
            r.deep_view() == NextModel::LoadRouting(
                RoutingModel {
                    hook_id: self.deep_view().hook_id,
                    envelope: stamped_envelope(self.deep_view().dispatch, id@, ts@),
                },
            ),
    {
        let d = self.dispatch;
        let envelope = Envelope {
            id,
            action: d.action,
            target: d.target,
            args: d.args,
            source: d.source,
            ts,
        };
        Next::LoadRouting(Routing { hook_id: self.hook_id, envelope })
    }

    /// Makes the message with a new id and the present time.
    pub fn stamp(self) -> (r: Next)
        ensures
            exists|id: Seq<char>, ts: Seq<char>|
                random_uuid(id) && (ts.len() == 0 || utc_stamp(ts)) && r.deep_view()
                    == NextModel::LoadRouting(
                    RoutingModel {
                        hook_id: self.deep_view().hook_id,
                        envelope: #[trigger] stamped_envelope(self.deep_view().dispatch, id, ts),
                    },
                ),
    {
        let id = new_id();
        let ts = now_rfc3339();
        let ghost stamped = stamped_envelope(self.deep_view().dispatch, id@, ts@);
        self.stamped(id, ts)
    }
}

// ---------------------------------------------------------------------------
// Sending

/// The hosts of a routing table, in their order.
pub open spec fn hosts_of(queues: Seq<(Seq<char>, Seq<char>)>) -> Seq<Seq<char>> {
    queues.map_values(|queue: (Seq<char>, Seq<char>)| queue.0)
}

/// The hosts of a routing table, in their order.
fn hosts(queues: &TextMap<String>) -> (r: Vec<String>)
    ensures
        r.deep_view() == hosts_of(queues.deep_view()),
{
    let mut r: Vec<String> = Vec::new();
    let mut i: usize = 0;
    let ghost all = hosts_of(queues.deep_view());
    while i < queues.len()
        invariant
            i <= queues.deep_view().len(),
            all == hosts_of(queues.deep_view()),
            r.deep_view() =~= all.take(i as int),
        decreases queues.deep_view().len() - i,
    {
        let ghost earlier = r.deep_view();
        r.push(queues.key_at(i).clone());
        assert(r.deep_view() =~= earlier.push(all[i as int]));
        i = i + 1;
    }
    assert(all.take(i as int) =~= all);
    r
}

/// What is published of a dispatch once the queues of `hosts` have the message.
pub open spec fn dispatch_event(
    hook_id: Seq<char>,
    envelope: EnvelopeModel,
    hosts: Seq<Seq<char>>,
) -> NotifyModel {
    NotifyModel::Dispatch {
        hook: hook_id,
        action: envelope.action,
        targets: hosts,
        source: envelope.source,
        outcome: "dispatched"@,
    }
}

/// What a dispatch is answered once `n` queues have the message.
pub open spec fn dispatch_reply(envelope: EnvelopeModel, n: nat) -> ReplyModel {
    plain_reply(202, "dispatched "@ + envelope.action + (" to "@ + decimal(n) + " queue(s)"@))
}

/// What follows once `sent` of the queues have the message: the next queue, or
/// the announcement after the last one.
pub open spec fn sending_step(s: SendingModel) -> NextModel {
    if s.sent < s.queues.len() {
        NextModel::Send(s)
    } else {
        NextModel::Announce(
            AnnouncingModel {
                event: dispatch_event(s.hook_id, s.envelope, hosts_of(s.queues)),
                reply: dispatch_reply(s.envelope, s.sent as nat),
            },
        )
    }
}

/// What follows the loading of the routing table.
pub open spec fn routing_step(routing: RoutingModel, load: RoutingLoadModel) -> NextModel {
    match load {
        RoutingLoadModel::Found(queues) => sending_step(
            SendingModel { hook_id: routing.hook_id, envelope: routing.envelope, queues, sent: 0 },
        ),
        RoutingLoadModel::Missing => NextModel::Fail("routing table missing"@),
        RoutingLoadModel::Failed(e) => NextModel::Fail(e),
    }
}

/// What follows the sending of the message to the next queue.
pub open spec fn sent_step(s: SendingModel, result: Result<(), Seq<char>>) -> NextModel {
    match result {
        Ok(_) => sending_step(SendingModel { sent: s.sent + 1, ..s }),
        Err(e) => NextModel::Fail(
            "send to "@ + s.queues[s.sent].0 + " ("@ + (s.queues[s.sent].1 + "): "@ + e),
        ),
    }
}

/// Goes on once `sent` of the queues have the message.
fn keep_sending(hook_id: String, envelope: Envelope, queues: TextMap<String>, sent: usize) -> (r:
    Next)
    requires
        sent <= queues.deep_view().len(),
    ensures
        r.deep_view() == sending_step(
            SendingModel {
                hook_id: hook_id@,
                envelope: envelope.deep_view(),
                queues: queues.deep_view(),
                sent: sent as int,
            },
        ),
{
    if sent < queues.len() {
        return Next::Send(Sending { hook_id, envelope, queues, sent });
    }
    let count = decimal_text(sent as u64);
    let to = joined3(" to ", count.as_str(), " queue(s)");
    let said = joined3("dispatched ", envelope.action.as_str(), to.as_str());
    let reply = resp(202, said.as_str());
    let event = NotifyEvent::Dispatch {
        hook: hook_id,
        action: envelope.action,
        targets: hosts(&queues),
        source: envelope.source,
        outcome: "dispatched".to_owned(),
    };
    Next::Announce(Announcing { event, reply })
}

impl Routing {
    /// Goes on with the routing table: the first queue.
    pub fn loaded(self, load: RoutingLoad) -> (r: Next)
        ensures
            r.deep_view() == routing_step(self.deep_view(), load.deep_view()),
    {
        match load {
            RoutingLoad::Found(queues) => keep_sending(self.hook_id, self.envelope, queues, 0),
            RoutingLoad::Missing => Next::Fail("routing table missing".to_owned()),
            RoutingLoad::Failed(e) => Next::Fail(e),
        }
    }
}

impl Sending {
    #[verifier::type_invariant]
    spec fn in_range(self) -> bool {
        self.sent < self.queues.deep_view().len()
    }

    /// The message to send.
    pub fn envelope(&self) -> (r: &Envelope)
        ensures
            r.deep_view() == self.deep_view().envelope,
    {
        &self.envelope
    }

    /// The URL of the queue to send it to.
    pub fn url(&self) -> (r: &String)
        ensures
            r@ == self.deep_view().queues[self.deep_view().sent].1,
    {
        proof {
            use_type_invariant(self);
        }
        self.queues.value_at(self.sent)
    }

    /// Goes on with what came of sending it.
    pub fn sent(self, result: Result<(), String>) -> (r: Next)
        ensures
            r.deep_view() == sent_step(
                self.deep_view(),
                match result {
                    Ok(_) => Ok(()),
                    Err(e) => Err(e@),
                },
            ),
    {
        proof {
            use_type_invariant(&self);
        }
        match result {
            Ok(_) => {
                let n = self.queues.len();
                assert(self.sent < n);
                keep_sending(self.hook_id, self.envelope, self.queues, self.sent + 1)
            },
            Err(e) => {
                let host = self.queues.key_at(self.sent);
                let url = self.queues.value_at(self.sent);
                let start = joined3("send to ", host.as_str(), " (");
                let end = joined3(url.as_str(), "): ", e.as_str());
                Next::Fail(joined2(start.as_str(), end.as_str()))
            },
        }
    }
}

impl Announcing {
    /// The event to publish.
    pub fn event(&self) -> (r: &NotifyEvent)
        ensures
            r.deep_view() == self.deep_view().event,
    {
        &self.event
    }

    /// Goes on after the event, whether or not it could be published.
    pub fn announced(self) -> (r: Next)
        ensures
            r.deep_view() == NextModel::Reply(self.deep_view().reply),
    {
        Next::Reply(self.reply)
    }
}

} // verus!
