//! What a request to a hook comes to, by what the request and the hook hold.
use crate::ingress::{
    admission, any_result, decision, is_signed, push_result, release_result, source_text,
    AdmissionModel, DispatchModel, HookModel, OutcomeModel, PushModel, ReleaseModel,
    RepositoryModel, Trigger,
};
use crate::signature::{hex_bytes, hex_value, hmac_sha256};
use crate::text_laws::law_prefix_is_taken_off;
use vstd::prelude::*;
use vstd::utf8::encode_utf8;

verus! {

// ---------------------------------------------------------------------------
// Screening

/// A signed request is let through to its payload exactly where its event is the
/// one that the hook listens to: `push`, `release`, or any. What is not let
/// through is ignored, with the event in the reason.
pub proof fn law_only_the_hooks_event_is_let_through(trigger: Trigger, event: Option<Seq<char>>)
    requires
        event != Some("ping"@),
    ensures
        trigger == Trigger::Push ==> if event == Some("push"@) {
            admission(trigger, event, true) is Open
        } else {
            admission(trigger, event, true) == AdmissionModel::Settled(
                OutcomeModel::Ignored("non-push event"@),
            )
        },
        trigger == Trigger::Release ==> if event == Some("release"@) {
            admission(trigger, event, true) is Open
        } else {
            admission(trigger, event, true) == AdmissionModel::Settled(
                OutcomeModel::Ignored("non-release event"@),
            )
        },
        trigger == Trigger::Any ==> admission(trigger, event, true) is Open,
{
    reveal_strlit("ping");
    reveal_strlit("push");
    reveal_strlit("release");
    assert("push"@[1] != "ping"@[1]);
    assert("release"@.len() != "ping"@.len());
}

/// A request without a signature header is not signed, and one with a header is
/// signed exactly where the header is `sha256=` and the hex digits of the HMAC of
/// the raw body under the hook's secret, all 32 bytes of it.
pub proof fn law_signed_by_the_hooks_secret(
    hook: HookModel,
    sig: Option<Seq<char>>,
    body: Seq<u8>,
    digits: Seq<char>,
)
    ensures
        sig is None ==> !is_signed(hook, sig, body),
        is_signed(hook, Some("sha256="@ + digits), body) <==> (hex_bytes(digits) matches Some(tag)
            && tag == hmac_sha256(encode_utf8(hook.secret), body) && tag.len() == 32),
        is_signed(hook, sig, body) ==> "sha256="@.is_prefix_of(sig->0),
{
    law_prefix_is_taken_off("sha256="@ + digits, "sha256="@, digits);
}

/// The digits of a tag, in either case, read as that tag: of each byte the upper
/// half first. A text with anything but hexadecimal digits, or an odd number of
/// them, reads as none.
pub proof fn law_hex_reads_back(text: Seq<char>, bytes: Seq<u8>)
    ensures
        ({
            &&& text.len() == 2 * bytes.len()
            &&& forall|i: int|
                #![trigger bytes[i]]
                0 <= i < bytes.len() ==> {
                    &&& writes_half(text[2 * i], bytes[i] as int / 16)
                    &&& writes_half(text[2 * i + 1], bytes[i] as int % 16)
                }
        }) ==> hex_bytes(text) == Some(bytes),
        text.len() % 2 != 0 ==> hex_bytes(text) is None,
        (exists|i: int|
            0 <= i < text.len() && !(('0' <= #[trigger] text[i] && text[i] <= '9') || ('a'
                <= text[i] && text[i] <= 'f') || ('A' <= text[i] && text[i] <= 'F')))
            ==> hex_bytes(text) is None,
{
    if text.len() == 2 * bytes.len() && forall|i: int|
        #![trigger bytes[i]]
        0 <= i < bytes.len() ==> {
            &&& writes_half(text[2 * i], bytes[i] as int / 16)
            &&& writes_half(text[2 * i + 1], bytes[i] as int % 16)
        } {
        assert forall|i: int| 0 <= i < text.len() implies hex_value(#[trigger] text[i]) is Some by {
            let k = i / 2;
            let b = bytes[k];
            assert(i == 2 * k || i == 2 * k + 1);
        }
        assert forall|i: int| 0 <= i < bytes.len() implies #[trigger] hex_bytes(text)->0[i]
            == bytes[i] by {
            let b = bytes[i];
            assert(hex_value(text[2 * i])->0 == b as int / 16);
            assert(hex_value(text[2 * i + 1])->0 == b as int % 16);
            assert(16 * (b as int / 16) + b as int % 16 == b as int);
        }
        assert(hex_bytes(text)->0 =~= bytes);
    }
    if exists|i: int|
        0 <= i < text.len() && !(('0' <= #[trigger] text[i] && text[i] <= '9') || ('a' <= text[i]
            && text[i] <= 'f') || ('A' <= text[i] && text[i] <= 'F')) {
        let i = choose|i: int|
            0 <= i < text.len() && !(('0' <= #[trigger] text[i] && text[i] <= '9') || ('a'
                <= text[i] && text[i] <= 'f') || ('A' <= text[i] && text[i] <= 'F'));
        assert(hex_value(text[i]) is None);
    }
}

/// Whether `c` is the hexadecimal digit for `half`, in either case.
pub open spec fn writes_half(c: char, half: int) -> bool {
    if half < 10 {
        c as int == '0' as int + half
    } else {
        c as int == 'a' as int + half - 10 || c as int == 'A' as int + half - 10
    }
}

// ---------------------------------------------------------------------------
// Payloads

/// A push is dispatched exactly where its ref is `refs/heads/` and the hook's
/// branch. One of any other ref, of a tag or of none, is ignored.
pub proof fn law_push_to_the_branch_is_dispatched(hook: HookModel, push: PushModel)
    ensures
        push_result(hook, push) is Dispatch <==> push.git_ref is Some && push.git_ref->0
            == "refs/heads/"@ + hook.branch,
        !(push_result(hook, push) is Dispatch) ==> push_result(hook, push)
            == OutcomeModel::Ignored("branch not matched"@),
{
}

/// Whether a push is dispatched depends on its ref and the hook's branch alone.
pub proof fn law_ref_and_branch_decide(
    hook: HookModel,
    other_hook: HookModel,
    push: PushModel,
    other: PushModel,
)
    requires
        other_hook.branch == hook.branch,
        other.git_ref == push.git_ref,
    ensures
        push_result(hook, push) is Dispatch <==> push_result(other_hook, other) is Dispatch,
{
}

/// A release is dispatched exactly where it was created, published, released,
/// prereleased or edited. Any other, and one that does not say, is ignored.
pub proof fn law_new_builds_are_dispatched(hook: HookModel, release: ReleaseModel)
    ensures
        release_result(hook, release) is Dispatch <==> {
            ||| release.action == Some("created"@)
            ||| release.action == Some("published"@)
            ||| release.action == Some("released"@)
            ||| release.action == Some("prereleased"@)
            ||| release.action == Some("edited"@)
        },
        !(release_result(hook, release) is Dispatch) ==> release_result(hook, release)
            == OutcomeModel::Ignored("release action ignored"@),
{
}

/// The source that a repository gives: `github:` and its full name, or none.
pub proof fn law_source_is_the_repository(repository: Option<RepositoryModel>)
    ensures
        source_text(repository) is Some <==> repository is Some && repository->0.full_name is Some,
        source_text(repository) matches Some(source) ==> source.len() == 7
            + repository->0.full_name->0.len() && source.take(7) == "github:"@ && source.skip(7)
            == repository->0.full_name->0,
{
    reveal_strlit("github:");
    if let Some(source) = source_text(repository) {
        assert(source.take(7) =~= "github:"@);
        assert(source.skip(7) =~= repository->0.full_name->0);
    }
}

/// What is dispatched of a push: the hook's action, to the hook's target, from the
/// payload's repository, with the head commit under `sha` exactly where the hook
/// forwards it and there is one.
pub proof fn law_push_dispatch_in_full(hook: HookModel, push: PushModel)
    requires
        push_result(hook, push) is Dispatch,
    ensures
        ({
            let d = push_result(hook, push)->Dispatch_0;
            &&& d.action == hook.action
            &&& d.target == hook.target
            &&& d.source == source_text(push.repository)
            &&& hook.forward_sha && push.after is Some && push.after->0.len() > 0 ==> d.args
                == seq![("sha"@, push.after->0)]
            &&& !hook.forward_sha || push.after is None || push.after->0.len() == 0
                ==> d.args.len() == 0
        }),
{
}

/// What is dispatched of a release and of any other payload: the hook's action, to
/// the hook's target, from the payload's repository, without args. A hook that any
/// request triggers dispatches whatever was read, and if nothing was.
pub proof fn law_other_dispatches_in_full(
    hook: HookModel,
    release: ReleaseModel,
    payload: Option<ReleaseModel>,
)
    ensures
        release_result(hook, release) matches OutcomeModel::Dispatch(d) ==> d == (DispatchModel {
            action: hook.action,
            target: hook.target,
            args: Seq::empty(),
            source: source_text(release.repository),
        }),
        any_result(hook, payload) == OutcomeModel::Dispatch(
            DispatchModel {
                action: hook.action,
                target: hook.target,
                args: Seq::empty(),
                source: match payload {
                    Some(p) => source_text(p.repository),
                    None => None,
                },
            },
        ),
{
}

// ---------------------------------------------------------------------------
// The whole decision

/// When a request comes to what: a ping is acknowledged; of the rest what is not
/// signed is refused; what is signed fails exactly where its payload is needed and
/// cannot be read; and a fleet is reached exactly by a push to the branch, a
/// release that brings a build, or any request, as the hook listens to.
pub proof fn law_decision_by_the_request<E>(
    hook: HookModel,
    event: Option<Seq<char>>,
    sig: Option<Seq<char>>,
    body: Seq<u8>,
    push: Result<PushModel, E>,
    release: Result<ReleaseModel, E>,
)
    ensures
        ({
            let decided = decision(hook, event, sig, body, push, release);
            let signed = is_signed(hook, sig, body);
            let ping = event == Some("ping"@);
            &&& ping <==> decided == Result::<OutcomeModel, E>::Ok(OutcomeModel::Pong)
            &&& !ping && !signed <==> decided == Result::<OutcomeModel, E>::Ok(
                OutcomeModel::Unauthorized,
            )
            &&& decided is Err <==> !ping && signed && ((hook.trigger == Trigger::Push && event
                == Some("push"@) && push is Err) || (hook.trigger == Trigger::Release && event
                == Some("release"@) && release is Err))
            &&& decided matches Err(e) ==> if hook.trigger == Trigger::Push {
                push == Result::<PushModel, E>::Err(e)
            } else {
                release == Result::<ReleaseModel, E>::Err(e)
            }
            &&& (decided matches Ok(o) && o is Dispatch) <==> !ping && signed && (match hook.trigger {
                Trigger::Push => event == Some("push"@) && push is Ok && push->Ok_0.git_ref == Some(
                    "refs/heads/"@ + hook.branch,
                ),
                Trigger::Release => event == Some("release"@) && release is Ok && {
                    let action = release->Ok_0.action;
                    ||| action == Some("created"@)
                    ||| action == Some("published"@)
                    ||| action == Some("released"@)
                    ||| action == Some("prereleased"@)
                    ||| action == Some("edited"@)
                },
                Trigger::Any => true,
            })
        }),
{
    reveal_strlit("ping");
    reveal_strlit("push");
    reveal_strlit("release");
    assert("push"@[1] != "ping"@[1]);
    assert("release"@.len() != "ping"@.len());
}

} // verus!
