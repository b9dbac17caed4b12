//! What the agent makes of its environment, of a timeout, of an output and of a
//! plan, by what those hold.
use crate::action::{ActionModel, ShaModel};
use crate::agent::{
    attempt_text, settings_of, tail_text, times_received, ConfigModel, EnvErrorModel,
};
use crate::command::{ancestor_args, command_of, sha_refusal};
use crate::message::NotifyMode;
use crate::text::{decimal, end_trimmed, lines_of, number_of, start_trimmed, trimmed, white_space};
use crate::text_laws::{blank, law_line_feeds_end_lines};
use crate::timeout::{quantity, timeout_seconds};
use vstd::prelude::*;

verus! {

// ---------------------------------------------------------------------------
// Settings

/// Where the settings come from, one by one: each from its own variable. The
/// actions directory has a default, a dry run is asked for by anything but an
/// empty text or `0`, and an empty topic is none.
pub proof fn law_each_setting_has_its_variable(
    host: Seq<char>,
    queue_url: Seq<char>,
    dir: Option<Seq<char>>,
    dry_run: Option<Seq<char>>,
    topic: Option<Seq<char>>,
)
    ensures
        settings_of(Ok(host), Ok(queue_url), dir, dry_run, topic) matches Ok(c) && {
            &&& c.host == host
            &&& c.queue_url == queue_url
            &&& dir matches Some(d) ==> c.actions_dir == d
            &&& dir is None ==> c.actions_dir == "/etc/flotswarm/actions.d"@
            &&& dry_run is None ==> !c.dry_run
            &&& dry_run matches Some(v) ==> (c.dry_run <==> v.len() > 0 && v != "0"@)
            &&& c.sns_topic_arn is Some <==> topic is Some && topic->0.len() > 0
            &&& c.sns_topic_arn is Some ==> c.sns_topic_arn == topic
        },
{
}

/// The host and the queue have to be there: the first that is not is named in the
/// error, with why it cannot be had.
pub proof fn law_host_and_queue_are_required(
    host: Result<Seq<char>, Seq<char>>,
    queue_url: Result<Seq<char>, Seq<char>>,
    dir: Option<Seq<char>>,
    dry_run: Option<Seq<char>>,
    topic: Option<Seq<char>>,
)
    ensures
        settings_of(host, queue_url, dir, dry_run, topic) is Ok <==> host is Ok && queue_url is Ok,
        host matches Err(why) ==> settings_of(host, queue_url, dir, dry_run, topic) == Result::<
            ConfigModel,
            EnvErrorModel,
        >::Err(
            EnvErrorModel { context: "missing required env "@ + "FLOTSWARM_HOST"@, cause: why },
        ),
        host is Ok ==> (queue_url matches Err(why) ==> settings_of(
            host,
            queue_url,
            dir,
            dry_run,
            topic,
        ) == Result::<ConfigModel, EnvErrorModel>::Err(
            EnvErrorModel {
                context: "missing required env "@ + "FLOTSWARM_QUEUE_URL"@,
                cause: why,
            },
        )),
{
}

// ---------------------------------------------------------------------------
// Notifications

/// Which outcomes each mode publishes.
pub proof fn law_modes_publish(ok: bool)
    ensures
        NotifyMode::Always.emits(ok),
        NotifyMode::OnError.emits(ok) <==> !ok,
        !NotifyMode::Never.emits(ok),
{
}

/// A receive count is the number that the attribute writes, where it fits in 32
/// bits, and 1 where there is none.
pub proof fn law_receive_count_is_the_number(attribute: Option<Seq<char>>)
    ensures
        attribute is None ==> times_received(attribute) == 1,
        attribute matches Some(text) ==> (number_of(text) is None ==> times_received(attribute)
            == 1),
        attribute matches Some(text) ==> (number_of(text) matches Some(n) ==> times_received(
            attribute,
        ) == if n <= 0xffff_ffff {
            n
        } else {
            1
        }),
{
}

/// The first attempt is not mentioned; any later one is, in a line of its own
/// before the tail, which is kept.
pub proof fn law_later_attempts_are_named(attempt: nat, tail: Seq<char>)
    ensures
        attempt <= 1 ==> attempt_text(attempt, tail) == tail,
        attempt > 1 ==> attempt_text(attempt, tail) == "[attempt "@ + decimal(attempt) + "]\n"@
            + tail,
{
    if attempt > 1 {
        assert("[attempt "@ + decimal(attempt) + ("]\n"@ + tail) =~= "[attempt "@ + decimal(attempt)
            + "]\n"@ + tail);
    }
}

// ---------------------------------------------------------------------------
// Tails

/// A line in front of a text that has `n` lines already does not change its last
/// `n` lines.
pub proof fn law_tail_is_the_end(line: Seq<char>, rest: Seq<char>, n: nat)
    requires
        !line.contains('\n'),
        rest.len() > 0,
        !white_space(rest.last()),
        lines_of(rest).len() >= n,
    ensures
        tail_text(line.push('\n') + rest, n) == tail_text(rest, n),
{
    let s = line.push('\n') + rest;
    assert(s.last() == rest.last());
    assert(end_trimmed(s) == s);
    assert(end_trimmed(rest) == rest);
    law_line_feeds_end_lines(line, rest);
    let all = lines_of(s);
    let some = lines_of(rest);
    assert(all.len() == some.len() + 1);
    assert(all.skip(all.len() - n) =~= some.skip(some.len() - n));
}

/// White space at the end of an output is not part of its tail.
pub proof fn law_tail_ignores_the_end(s: Seq<char>, space: Seq<char>, n: nat)
    requires
        blank(space),
    ensures
        tail_text(s + space, n) == tail_text(s, n),
{
    lemma_end_trimmed_blank(s, space);
}

proof fn lemma_end_trimmed_blank(s: Seq<char>, space: Seq<char>)
    requires
        blank(space),
    ensures
        end_trimmed(s + space) == end_trimmed(s),
    decreases space.len(),
{
    if space.len() > 0 {
        assert((s + space).last() == space.last());
        assert(white_space(space[space.len() - 1]));
        assert((s + space).drop_last() =~= s + space.drop_last());
        assert forall|i: int| 0 <= i < space.drop_last().len() implies white_space(
            #[trigger] space.drop_last()[i],
        ) by {
            assert(white_space(space[i]));
        }
        lemma_end_trimmed_blank(s, space.drop_last());
    } else {
        assert(s + space =~= s);
    }
}

// ---------------------------------------------------------------------------
// Timeouts

/// White space around a timeout changes nothing.
pub proof fn law_timeout_ignores_space(front: Seq<char>, s: Seq<char>, back: Seq<char>)
    requires
        blank(front),
        blank(back),
    ensures
        timeout_seconds(Some(front + s + back)) == timeout_seconds(Some(s)),
{
    lemma_end_trimmed_blank(front + s, back);
    lemma_trimmed_front(front, s);
}

proof fn lemma_trimmed_front(front: Seq<char>, s: Seq<char>)
    requires
        blank(front),
    ensures
        trimmed(front + s) == trimmed(s),
    decreases s.len(),
{
    let t = front + s;
    if s.len() > 0 && white_space(s.last()) {
        assert(t.last() == s.last());
        assert(t.drop_last() =~= front + s.drop_last());
        lemma_trimmed_front(front, s.drop_last());
    } else if s.len() > 0 {
        assert(t.last() == s.last());
        lemma_start_trimmed_front(front, s);
    } else {
        assert(t =~= Seq::<char>::empty() + front);
        lemma_end_trimmed_blank(Seq::empty(), front);
    }
}

proof fn lemma_start_trimmed_front(front: Seq<char>, s: Seq<char>)
    requires
        blank(front),
    ensures
        start_trimmed(front + s) == start_trimmed(s),
    decreases front.len(),
{
    let t = front + s;
    if front.len() > 0 {
        assert(white_space(front[0]));
        assert(t.first() == front[0]);
        assert(t.drop_first() =~= front.drop_first() + s);
        assert forall|i: int| 0 <= i < front.drop_first().len() implies white_space(
            #[trigger] front.drop_first()[i],
        ) by {
            assert(white_space(front[i + 1]));
        }
        lemma_start_trimmed_front(front.drop_first(), s);
    } else {
        assert(t =~= s);
    }
}

/// What a timeout without white space around it stands for: by its last
/// character, seconds, minutes or hours of the number before it, up to white space
/// around that, or seconds of the number that it is. Ten minutes where that is no
/// number, or too large a one.
pub proof fn law_timeout_by_its_unit(s: Seq<char>, unit: char)
    requires
        trimmed(s.push(unit)) == s.push(unit),
    ensures
        timeout_seconds(None) == 600,
        unit == 's' ==> timeout_seconds(Some(s.push(unit))) == timed(number_of(trimmed(s)), 1),
        unit == 'm' ==> timeout_seconds(Some(s.push(unit))) == timed(number_of(trimmed(s)), 60),
        unit == 'h' ==> timeout_seconds(Some(s.push(unit))) == timed(number_of(trimmed(s)), 3600),
        unit != 's' && unit != 'm' && unit != 'h' ==> timeout_seconds(Some(s.push(unit))) == timed(
            number_of(s.push(unit)),
            1,
        ),
{
    assert(s.push(unit).drop_last() =~= s);
    if unit != 's' && unit != 'm' && unit != 'h' {
        assert(quantity(s.push(unit)).0 == s.push(unit));
    }
}

/// The seconds of so many units, or ten minutes where there is no number, or where
/// the number or the seconds do not fit in 64 bits.
pub open spec fn timed(number: Option<int>, unit: int) -> int {
    match number {
        Some(n) => if n <= 0xffff_ffff_ffff_ffff && n * unit <= 0xffff_ffff_ffff_ffff {
            n * unit
        } else {
            600
        },
        None => 600,
    }
}

// ---------------------------------------------------------------------------
// Commands

/// The command runs in the action's working directory, and in none where it names
/// none, for as long as the action's timeout says. Neither depends on the user
/// that it runs as, nor on what is run.
pub proof fn law_directory_and_time_are_the_actions(
    action: ActionModel,
    argv: Seq<Seq<char>>,
    other: ActionModel,
    other_argv: Seq<Seq<char>>,
)
    ensures
        command_of(action, argv).working_dir == action.working_dir,
        command_of(action, argv).timeout_secs == timeout_seconds(action.timeout),
        other.working_dir == action.working_dir ==> command_of(other, other_argv).working_dir
            == command_of(action, argv).working_dir,
        other.timeout == action.timeout ==> command_of(other, other_argv).timeout_secs
            == command_of(action, argv).timeout_secs,
{
}

/// What is run: the program of the argv with the rest as its arguments, or `sudo`,
/// told the user and where its own options end, with the whole argv behind.
pub proof fn law_user_is_told_to_sudo(action: ActionModel, argv: Seq<Seq<char>>)
    requires
        argv.len() > 0,
    ensures
        ({
            let c = command_of(action, argv);
            match action.run_as {
                None => {
                    &&& c.program == argv[0]
                    &&& c.args.len() == argv.len() - 1
                    &&& forall|i: int| 0 <= i < c.args.len() ==> #[trigger] c.args[i] == argv[i + 1]
                },
                Some(user) => {
                    &&& c.program == "sudo"@
                    &&& c.args.len() == argv.len() + 3
                    &&& c.args[0] == "-u"@
                    &&& c.args[1] == user
                    &&& c.args[2] == "--"@
                    &&& forall|i: int| 0 <= i < argv.len() ==> c.args[i + 3] == #[trigger] argv[i]
                },
            }
        }),
{
}

/// What git is asked for a check: in the check's repository, whether its commit is
/// an ancestor of its ref.
pub proof fn law_git_is_asked_for_the_check(check: ShaModel)
    ensures
        ancestor_args(check).len() == 6,
        ancestor_args(check)[0] == "-C"@,
        ancestor_args(check)[1] == check.repo,
        ancestor_args(check)[2] == "merge-base"@,
        ancestor_args(check)[3] == "--is-ancestor"@,
        ancestor_args(check)[4] == check.value,
        ancestor_args(check)[5] == check.ancestor_of,
{
}

/// A check is passed exactly where git ran and succeeded. The refusal says what
/// the commit is not, or why git could not be run.
pub proof fn law_only_success_passes_a_check(check: ShaModel, status: Result<bool, Seq<char>>)
    ensures
        sha_refusal(check, status) is None <==> status == Result::<bool, Seq<char>>::Ok(true),
        status == Result::<bool, Seq<char>>::Ok(false) ==> sha_refusal(check, status) == Some(
            check.value + " is not an ancestor of "@ + check.ancestor_of + (" in "@ + check.repo),
        ),
        status matches Err(why) ==> sha_refusal(check, status) == Some(
            "running git in "@ + check.repo + (": "@ + why),
        ),
{
}

} // verus!
