//! How a request at the distributor is answered and what is sent of it, by what
//! the request, the hook and the routing table hold.
use crate::ingress::{
    is_signed, source_text, DispatchModel, HookModel, OutcomeModel, PushModel, ReleaseModel,
    Trigger,
};
use crate::message::{EnvelopeModel, NotifyModel};
use crate::request::{
    first_step, hook_parameter_name, hook_step, payload_step, push_step, release_step,
    requested_hook, routing_parameter_name, routing_step, sending_step, sent_step, settled_step,
    stamped_envelope, HookLoadModel, LookupModel, NextModel, RequestModel, RoutingLoadModel,
    RoutingModel, SendingModel, SignedModel,
};
use crate::text::{decimal, end_stripped};
use crate::text_laws::{law_end_is_stripped, law_prefix_is_taken_off};
use vstd::prelude::*;

verus! {

// ---------------------------------------------------------------------------
// The hook of a request

/// The path parameter is the hook's id, whatever the path is. Without it, the id
/// is what stands behind `/hooks/`, up to the slashes at the end, and there is one
/// exactly where that is not empty.
pub proof fn law_hook_id_is_in_the_path(
    param: Option<Seq<char>>,
    path: Seq<char>,
    id: Seq<char>,
    slashes: Seq<char>,
)
    requires
        id.len() > 0,
        id.last() != '/',
        forall|i: int| 0 <= i < slashes.len() ==> #[trigger] slashes[i] == '/',
    ensures
        param is Some ==> requested_hook(param, path) == param,
        requested_hook(None, "/hooks/"@ + (id + slashes)) == Some(id),
        requested_hook(None, "/hooks/"@ + slashes) is None,
        !"/hooks/"@.is_prefix_of(path) ==> requested_hook(None, path) is None,
{
    law_prefix_is_taken_off(path, "/hooks/"@, id + slashes);
    law_prefix_is_taken_off(path, "/hooks/"@, slashes);
    lemma_stripped_to(id, slashes);
    law_end_is_stripped(slashes, '/');
    let r = end_stripped(slashes, '/');
    if r.len() > 0 {
        assert(slashes.take(r.len() as int).last() == slashes[r.len() - 1]);
    }
}

proof fn lemma_stripped_to(id: Seq<char>, slashes: Seq<char>)
    requires
        id.len() > 0,
        id.last() != '/',
        forall|i: int| 0 <= i < slashes.len() ==> #[trigger] slashes[i] == '/',
    ensures
        end_stripped(id + slashes, '/') == id,
    decreases slashes.len(),
{
    let s = id + slashes;
    if slashes.len() > 0 {
        assert(s.last() == slashes.last());
        assert(s.drop_last() =~= id + slashes.drop_last());
        assert forall|i: int| 0 <= i < slashes.drop_last().len() implies #[trigger] slashes.drop_last()[i]
            == '/' by {
            assert(slashes[i] == '/');
        }
        lemma_stripped_to(id, slashes.drop_last());
    } else {
        assert(s =~= id);
    }
}

/// Each hook has a parameter of its own below `/flotswarm/hooks/`, and none of them
/// is the routing table's.
pub proof fn law_parameters_are_apart(id: Seq<char>, other: Seq<char>)
    ensures
        hook_parameter_name(id) == "/flotswarm/hooks/"@ + id,
        routing_parameter_name() == "/flotswarm/routing"@,
        hook_parameter_name(id) == hook_parameter_name(other) ==> id == other,
        hook_parameter_name(id) != routing_parameter_name(),
{
    reveal_strlit("/flotswarm/hooks/");
    reveal_strlit("/flotswarm/routing");
    let prefix = "/flotswarm/hooks/"@;
    assert((prefix + id).skip(prefix.len() as int) =~= id);
    assert((prefix + other).skip(prefix.len() as int) =~= other);
    assert((prefix + id)[11] == 'h');
    assert("/flotswarm/routing"@[11] == 'r');
}

/// A request goes on with its own event, signature and body, for the hook that it
/// names; one that names none is answered with 400.
pub proof fn law_request_is_taken_as_it_is(request: RequestModel)
    ensures
        match requested_hook(request.param, request.path) {
            Some(id) => first_step(request) matches NextModel::LoadHook(l) && l.hook_id == id
                && l.event == request.event && l.sig == request.sig && l.body == request.body,
            None => first_step(request) matches NextModel::Reply(r) && r.status == 400
                && r.content_type == "text/plain"@ && r.body == "missing hook id"@ + "\n"@,
        },
{
}

/// A hook that is not there is answered with 404, and one that cannot be read or
/// loaded fails the request: nothing is sent.
pub proof fn law_unloaded_hooks_send_nothing(lookup: LookupModel, why: Seq<char>)
    ensures
        hook_step(lookup, HookLoadModel::Missing) matches NextModel::Reply(r) && r.status == 404
            && r.content_type == "text/plain"@ && r.body == "unknown hook"@ + "\n"@,
        hook_step(lookup, HookLoadModel::Malformed(why)) matches NextModel::Fail(said) && said
            == "hook "@ + lookup.hook_id + " config is not valid JSON: "@ + why,
        hook_step(lookup, HookLoadModel::Failed(why)) == NextModel::Fail(why),
{
}

/// A signed request is read as a push by a hook that listens to pushes, where its
/// event is one, and as a release by the others; as it was signed, under its own
/// hook's id. An event that the hook does not listen to is answered with 200.
pub proof fn law_signed_requests_are_read(lookup: LookupModel, hook: HookModel)
    requires
        is_signed(hook, lookup.sig, lookup.body),
        lookup.event != Some("ping"@),
    ensures
        ({
            let next = hook_step(lookup, HookLoadModel::Found(hook));
            let signed = SignedModel {
                hook_id: lookup.hook_id,
                hook,
                header: lookup.sig->0,
                body: lookup.body,
            };
            match hook.trigger {
                Trigger::Push => if lookup.event == Some("push"@) {
                    next == NextModel::ReadPush(signed)
                } else {
                    next matches NextModel::Reply(r) && r.status == 200 && r.body
                        == "non-push event"@ + "\n"@
                },
                Trigger::Release => if lookup.event == Some("release"@) {
                    next == NextModel::ReadRelease(signed)
                } else {
                    next matches NextModel::Reply(r) && r.status == 200 && r.body
                        == "non-release event"@ + "\n"@
                },
                Trigger::Any => next == NextModel::ReadRelease(signed),
            }
        }),
{
    reveal_strlit("ping");
    reveal_strlit("push");
    reveal_strlit("release");
    assert("push"@[1] != "ping"@[1]);
    assert("release"@.len() != "ping"@.len());
}

/// What each outcome is answered: 200 with `pong`, 401, or 200 with the reason why
/// there is nothing to do. A dispatch is answered only once it is sent: it goes on
/// as it is, under the hook's id.
pub proof fn law_outcomes_are_answered(hook_id: Seq<char>, why: Seq<char>, dispatch: DispatchModel)
    ensures
        settled_step(hook_id, OutcomeModel::Pong) matches NextModel::Reply(r) && r.status == 200
            && r.content_type == "text/plain"@ && r.body == "pong"@ + "\n"@,
        settled_step(hook_id, OutcomeModel::Unauthorized) matches NextModel::Reply(r) && r.status
            == 401 && r.content_type == "text/plain"@ && r.body == "bad signature"@ + "\n"@,
        settled_step(hook_id, OutcomeModel::Ignored(why)) matches NextModel::Reply(r) && r.status
            == 200 && r.content_type == "text/plain"@ && r.body == why + "\n"@,
        settled_step(hook_id, OutcomeModel::Dispatch(dispatch)) matches NextModel::Stamp(s)
            && s.hook_id == hook_id && s.dispatch == dispatch,
        payload_step(hook_id, Err(why)) matches NextModel::Reply(r) && r.status == 400
            && r.content_type == "text/plain"@ && r.body == "bad payload: "@ + why + "\n"@,
        payload_step(hook_id, Ok(OutcomeModel::Dispatch(dispatch))) matches NextModel::Stamp(s)
            && s.hook_id == hook_id && s.dispatch == dispatch,
{
}

/// An unreadable payload is answered with 400, except at a hook that any request
/// triggers, which does without it.
pub proof fn law_unreadable_payloads(signed: SignedModel, why: Seq<char>)
    ensures
        push_step(signed, Err(why)) matches NextModel::Reply(r) && r.status == 400,
        signed.hook.trigger != Trigger::Any ==> (release_step(signed, Err(why)) matches
            NextModel::Reply(r) && r.status == 400),
        signed.hook.trigger == Trigger::Any ==> release_step(signed, Err(why)) is Stamp,
{
}

// ---------------------------------------------------------------------------
// The message

/// The message of a push, in full: the hook's action and target, the id and the
/// time it was stamped with, the payload's repository as its source, and the head
/// commit as its only arg, where the hook forwards it.
pub proof fn law_message_of_a_push(
    signed: SignedModel,
    push: PushModel,
    id: Seq<char>,
    ts: Seq<char>,
)
    requires
        push.git_ref == Some("refs/heads/"@ + signed.hook.branch),
    ensures
        push_step(signed, Ok(push)) matches NextModel::Stamp(s) && {
            let m = stamped_envelope(s.dispatch, id, ts);
            &&& s.hook_id == signed.hook_id
            &&& m.id == id
            &&& m.ts == ts
            &&& m.action == signed.hook.action
            &&& m.target == signed.hook.target
            &&& m.source == source_text(push.repository)
            &&& m.args == if signed.hook.forward_sha && push.after is Some && push.after->0.len()
                > 0 {
                seq![("sha"@, push.after->0)]
            } else {
                Seq::empty()
            }
        },
{
}

/// The message of any other payload, in full.
pub proof fn law_message_of_a_release(
    signed: SignedModel,
    release: ReleaseModel,
    id: Seq<char>,
    ts: Seq<char>,
)
    ensures
        release_step(signed, Ok(release)) matches NextModel::Stamp(s) ==> {
            let m = stamped_envelope(s.dispatch, id, ts);
            &&& s.hook_id == signed.hook_id
            &&& m.id == id
            &&& m.ts == ts
            &&& m.action == signed.hook.action
            &&& m.target == signed.hook.target
            &&& m.source == source_text(release.repository)
            &&& m.args == Seq::<(Seq<char>, Seq<char>)>::empty()
        },
        signed.hook.trigger == Trigger::Any ==> release_step(signed, Ok(release)) is Stamp,
        signed.hook.trigger == Trigger::Release ==> (release_step(signed, Ok(release)) is Stamp
            <==> {
            ||| release.action == Some("created"@)
            ||| release.action == Some("published"@)
            ||| release.action == Some("released"@)
            ||| release.action == Some("prereleased"@)
            ||| release.action == Some("edited"@)
        }),
{
}

/// A message takes all that it says from the dispatch and the stamp.
pub proof fn law_stamping_keeps_the_dispatch(
    dispatch: DispatchModel,
    id: Seq<char>,
    ts: Seq<char>,
)
    ensures
        stamped_envelope(dispatch, id, ts) == (EnvelopeModel {
            id,
            action: dispatch.action,
            target: dispatch.target,
            args: dispatch.args,
            source: dispatch.source,
            ts,
        }),
{
}

// ---------------------------------------------------------------------------
// Sending

/// The routing table decides where the message goes, from its first queue on. One
/// that is missing or cannot be had fails the request.
pub proof fn law_routing_starts_at_the_first_queue(
    routing: RoutingModel,
    queues: Seq<(Seq<char>, Seq<char>)>,
    why: Seq<char>,
)
    ensures
        queues.len() > 0 ==> (routing_step(routing, RoutingLoadModel::Found(queues)) matches
            NextModel::Send(s) && s.sent == 0 && s.queues == queues && s.envelope
            == routing.envelope && s.hook_id == routing.hook_id),
        queues.len() == 0 ==> routing_step(routing, RoutingLoadModel::Found(queues)) is Announce,
        routing_step(routing, RoutingLoadModel::Missing) == NextModel::Fail(
            "routing table missing"@,
        ),
        routing_step(routing, RoutingLoadModel::Failed(why)) == NextModel::Fail(why),
{
}

/// A queue that has the message is followed by the next one of the table, with the
/// same message, and the last by the announcement. One that cannot be reached fails
/// the request, by its host, its URL and the reason.
pub proof fn law_queues_follow_one_another(s: SendingModel, why: Seq<char>)
    requires
        0 <= s.sent < s.queues.len(),
    ensures
        s.sent + 1 < s.queues.len() ==> (sent_step(s, Ok(())) matches NextModel::Send(t) && t.sent
            == s.sent + 1 && t.queues == s.queues && t.envelope == s.envelope && t.hook_id
            == s.hook_id),
        s.sent + 1 == s.queues.len() ==> sent_step(s, Ok(())) is Announce,
        sent_step(s, Err(why)) == NextModel::Fail(
            "send to "@ + s.queues[s.sent].0 + " ("@ + (s.queues[s.sent].1 + "): "@ + why),
        ),
{
}

/// Once every queue has the message, the event names the hook, the action, the
/// source and the host of each queue, in their order, and the reply is 202 with
/// the action and the number of queues.
pub proof fn law_dispatch_is_announced(s: SendingModel)
    requires
        s.sent == s.queues.len(),
    ensures
        sending_step(s) matches NextModel::Announce(a) && {
            &&& a.event matches NotifyModel::Dispatch { hook, action, targets, source, outcome }
            &&& hook == s.hook_id
            &&& action == s.envelope.action
            &&& source == s.envelope.source
            &&& outcome == "dispatched"@
            &&& targets.len() == s.queues.len()
            &&& forall|i: int|
                0 <= i < s.queues.len() ==> targets[i] == (#[trigger] s.queues[i]).0
            &&& a.reply.status == 202
            &&& a.reply.content_type == "text/plain"@
            &&& a.reply.body == "dispatched "@ + s.envelope.action + (" to "@ + decimal(
                s.queues.len(),
            ) + " queue(s)"@) + "\n"@
        },
{
}

} // verus!
