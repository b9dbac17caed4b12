//! What holds of every request at the distributor.
use crate::ingress::{decision, is_signed, HookModel, PushModel, ReleaseModel};
use crate::request::{
    dispatch_event, dispatch_reply, hook_step, hosts_of, payload_step, plain_reply, push_step,
    release_step, routing_step, sent_step, stamped_envelope, AnnouncingModel, HookLoadModel,
    LookupModel, NextModel, RoutingLoadModel, RoutingModel, SendingModel, SignedModel,
};
use vstd::prelude::*;

verus! {

/// A request that does not carry a signature of its hook is answered at once,
/// a ping with `pong` and anything else with a refusal: nothing is read of its
/// body and nothing is sent.
pub proof fn law_unsigned_request_is_answered(lookup: LookupModel, hook: HookModel)
    requires
        !is_signed(hook, lookup.sig, lookup.body),
    ensures
        hook_step(lookup, HookLoadModel::Found(hook)) == NextModel::Reply(
            if lookup.event == Some("ping"@) {
                plain_reply(200, "pong"@)
            } else {
                plain_reply(401, "bad signature"@)
            },
        ),
{
}

/// The body of a request is read only where it is signed, and then as it was
/// signed, for the hook whose secret signs it.
pub proof fn law_only_signed_bodies_are_read(lookup: LookupModel, load: HookLoadModel)
    ensures
        hook_step(lookup, load) matches NextModel::ReadPush(signed) ==> load
            == HookLoadModel::Found(signed.hook) && signed.body == lookup.body && is_signed(
            signed.hook,
            Some(signed.header),
            signed.body,
        ),
        hook_step(lookup, load) matches NextModel::ReadRelease(signed) ==> load
            == HookLoadModel::Found(signed.hook) && signed.body == lookup.body && is_signed(
            signed.hook,
            Some(signed.header),
            signed.body,
        ),
        !(hook_step(lookup, load) is Stamp),
        !(hook_step(lookup, load) is Send),
{
}

/// Where a request stands once its payload is read, if it has to be: `push` and
/// `release` are what is read of it as a push and as a release.
pub open spec fn after_payload(
    step: NextModel,
    push: Result<PushModel, Seq<char>>,
    release: Result<ReleaseModel, Seq<char>>,
) -> NextModel {
    match step {
        NextModel::ReadPush(signed) => push_step(signed, push),
        NextModel::ReadRelease(signed) => release_step(signed, release),
        other => other,
    }
}

/// A request to a hook goes on by the decision on it, the same that is made of
/// the whole request at once.
pub proof fn law_request_follows_the_decision(
    lookup: LookupModel,
    hook: HookModel,
    push: Result<PushModel, Seq<char>>,
    release: Result<ReleaseModel, Seq<char>>,
)
    ensures
        after_payload(hook_step(lookup, HookLoadModel::Found(hook)), push, release) == payload_step(
            lookup.hook_id,
            decision(hook, lookup.event, lookup.sig, lookup.body, push, release),
        ),
{
}

/// A message carries the action and the target of the hook that its request was
/// signed for.
pub proof fn law_message_is_the_hooks(
    signed: SignedModel,
    push: Result<PushModel, Seq<char>>,
    release: Result<ReleaseModel, Seq<char>>,
    id: Seq<char>,
    ts: Seq<char>,
)
    ensures
        push_step(signed, push) matches NextModel::Stamp(s) ==> s.hook_id == signed.hook_id
            && stamped_envelope(s.dispatch, id, ts).action == signed.hook.action
            && stamped_envelope(s.dispatch, id, ts).target == signed.hook.target,
        release_step(signed, release) matches NextModel::Stamp(s) ==> s.hook_id == signed.hook_id
            && stamped_envelope(s.dispatch, id, ts).action == signed.hook.action
            && stamped_envelope(s.dispatch, id, ts).target == signed.hook.target,
{
}

/// Where a broadcast stands after `k` sends that succeed, from the routing table
/// on.
pub open spec fn after_sends(
    routing: RoutingModel,
    queues: Seq<(Seq<char>, Seq<char>)>,
    k: nat,
) -> NextModel
    decreases k,
{
    if k == 0 {
        routing_step(routing, RoutingLoadModel::Found(queues))
    } else {
        match after_sends(routing, queues, (k - 1) as nat) {
            NextModel::Send(s) => sent_step(s, Ok(())),
            other => other,
        }
    }
}

/// Every queue of the routing table gets the message, one after the other in the
/// order of the hosts; the event names all of them, and the reply counts them.
pub proof fn law_every_queue_gets_the_message(
    routing: RoutingModel,
    queues: Seq<(Seq<char>, Seq<char>)>,
    k: nat,
)
    requires
        k <= queues.len(),
    ensures
        k < queues.len() ==> after_sends(routing, queues, k) == NextModel::Send(
            SendingModel {
                hook_id: routing.hook_id,
                envelope: routing.envelope,
                queues,
                sent: k as int,
            },
        ),
        k == queues.len() ==> after_sends(routing, queues, k) == NextModel::Announce(
            AnnouncingModel {
                event: dispatch_event(routing.hook_id, routing.envelope, hosts_of(queues)),
                reply: dispatch_reply(routing.envelope, queues.len()),
            },
        ),
    decreases k,
{
    if k > 0 {
        law_every_queue_gets_the_message(routing, queues, (k - 1) as nat);
    }
}

/// A send that fails ends the broadcast: the request fails, and no further queue
/// gets the message.
pub proof fn law_failed_send_ends_the_broadcast(s: SendingModel, why: Seq<char>)
    ensures
        sent_step(s, Err(why)) is Fail,
{
}

} // verus!
