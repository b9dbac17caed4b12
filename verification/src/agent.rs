//! The agent's settings, and what it makes of a queue's attributes and of an
//! action's output.
use crate::text::{
    decimal, decimal_text, end_trimmed, join_from, joined, joined2, joined3, law_decimal_reads_back,
    line_end, lines, lines_from, lines_of, number_up_to, parse_number, same_text, trim_end, white_space,
    without_return,
};
use vstd::prelude::*;

verus! {

// ---------------------------------------------------------------------------
// Settings

/// The agent's settings.
#[derive(Debug, Clone, PartialEq, Eq)]
pub struct Config {
    pub host: String,
    pub queue_url: String,
    pub actions_dir: String,
    /// Validate and report, never execute.
    pub dry_run: bool,
    /// Optional SNS topic for outcome notifications. Unset → notifications off.
    pub sns_topic_arn: Option<String>,
}

/// What a [`Config`] says.
pub struct ConfigModel {
    pub host: Seq<char>,
    pub queue_url: Seq<char>,
    pub actions_dir: Seq<char>,
    pub dry_run: bool,
    pub sns_topic_arn: Option<Seq<char>>,
}

impl DeepView for Config {
    type V = ConfigModel;

    open spec fn deep_view(&self) -> ConfigModel {
        ConfigModel {
            host: self.host@,
            queue_url: self.queue_url@,
            actions_dir: self.actions_dir@,
            dry_run: self.dry_run,
            sns_topic_arn: self.sns_topic_arn.deep_view(),
        }
    }
}

/// A required environment variable that cannot be had.
#[derive(Debug, Clone, PartialEq, Eq)]
pub struct EnvError {
    pub context: String,
    /// Why it cannot be had.
    pub cause: String,
}

/// What an [`EnvError`] says.
pub struct EnvErrorModel {
    pub context: Seq<char>,
    pub cause: Seq<char>,
}

impl DeepView for EnvError {
    type V = EnvErrorModel;

    open spec fn deep_view(&self) -> EnvErrorModel {
        EnvErrorModel { context: self.context@, cause: self.cause@ }
    }
}

/// The error of a required variable that cannot be had.
pub open spec fn missing_variable(name: Seq<char>, cause: Seq<char>) -> EnvErrorModel {
    EnvErrorModel { context: "missing required env "@ + name, cause }
}

/// The value of a required variable, or the error where it cannot be had.
pub fn env_req(name: &str, value: Result<String, String>) -> (r: Result<String, EnvError>)
    ensures
        match value {
            Ok(v) => r == Result::<String, EnvError>::Ok(v),
            Err(cause) => r matches Err(e) && e.deep_view() == missing_variable(name@, cause@),
        },
{
    match value {
        Ok(v) => Ok(v),
        Err(cause) => Err(EnvError { context: joined2("missing required env ", name), cause }),
    }
}

/// A text that is there and not empty.
pub open spec fn non_empty(value: Option<Seq<char>>) -> Option<Seq<char>> {
    match value {
        Some(v) => if v.len() > 0 {
            Some(v)
        } else {
            None
        },
        None => None,
    }
}

/// The topic to notify, which an empty variable leaves unset.
pub fn topic_of(value: Option<String>) -> (r: Option<String>)
    ensures
        r.deep_view() == non_empty(value.deep_view()),
{
    match value {
        Some(v) => if v.as_str().is_empty() {
            None
        } else {
            Some(v)
        },
        None => None,
    }
}

/// Whether a variable switches something on: it is there, not empty, and not `0`.
pub open spec fn switched_on(value: Option<Seq<char>>) -> bool {
    non_empty(value) is Some && value != Some("0"@)
}

/// The settings that the environment gives, or the error of the first required
/// variable that cannot be had.
pub open spec fn settings_of(
    host: Result<Seq<char>, Seq<char>>,
    queue_url: Result<Seq<char>, Seq<char>>,
    actions_dir: Option<Seq<char>>,
    dry_run: Option<Seq<char>>,
    topic: Option<Seq<char>>,
) -> Result<ConfigModel, EnvErrorModel> {
    match (host, queue_url) {
        (Err(cause), _) => Err(missing_variable("FLOTSWARM_HOST"@, cause)),
        (_, Err(cause)) => Err(missing_variable("FLOTSWARM_QUEUE_URL"@, cause)),
        (Ok(host), Ok(queue_url)) => Ok(
            ConfigModel {
                host,
                queue_url,
                actions_dir: match actions_dir {
                    Some(dir) => dir,
                    None => "/etc/flotswarm/actions.d"@,
                },
                dry_run: switched_on(dry_run),
                sns_topic_arn: non_empty(topic),
            },
        ),
    }
}

/// The model of a text or of the text of an error.
pub open spec fn text_model(r: Result<String, String>) -> Result<Seq<char>, Seq<char>> {
    match r {
        Ok(t) => Ok(t@),
        Err(e) => Err(e@),
    }
}

impl Config {
    /// The settings from what each environment variable holds: `FLOTSWARM_HOST`
    /// and `FLOTSWARM_QUEUE_URL` (required, or why they cannot be had),
    /// `FLOTSWARM_ACTIONS_DIR`, `FLOTSWARM_DRY_RUN` and
    /// `FLOTSWARM_SNS_TOPIC_ARN`.
    pub fn from_env(
        host: Result<String, String>,
        queue_url: Result<String, String>,
        actions_dir: Option<String>,
        dry_run: Option<String>,
        topic: Option<String>,
    ) -> (r: Result<Self, EnvError>)
        ensures
            match r {
                Ok(config) => settings_of(
                    text_model(host),
                    text_model(queue_url),
                    actions_dir.deep_view(),
                    dry_run.deep_view(),
                    topic.deep_view(),
                ) == Result::<ConfigModel, EnvErrorModel>::Ok(config.deep_view()),
                Err(error) => settings_of(
                    text_model(host),
                    text_model(queue_url),
                    actions_dir.deep_view(),
                    dry_run.deep_view(),
                    topic.deep_view(),
                ) == Result::<ConfigModel, EnvErrorModel>::Err(error.deep_view()),
            },
    {
        let host = match env_req("FLOTSWARM_HOST", host) {
            Ok(host) => host,
            Err(e) => {
                return Err(e);
            },
        };
        let queue_url = match env_req("FLOTSWARM_QUEUE_URL", queue_url) {
            Ok(queue_url) => queue_url,
            Err(e) => {
                return Err(e);
            },
        };
        let actions_dir = match actions_dir {
            Some(dir) => dir,
            None => "/etc/flotswarm/actions.d".to_owned(),
        };
        let dry_run = match dry_run {
            Some(v) => !v.as_str().is_empty() && !same_text(v.as_str(), "0"),
            None => false,
        };
        Ok(Config { host, queue_url, actions_dir, dry_run, sns_topic_arn: topic_of(topic) })
    }
}

// ---------------------------------------------------------------------------
// Receive counts

/// How often a message has been received, by its queue attribute; once where
/// that is absent or no 32-bit number.
pub open spec fn times_received(attribute: Option<Seq<char>>) -> int {
    match attribute {
        Some(text) => match number_up_to(text, u32::MAX as int) {
            Some(n) => n,
            None => 1,
        },
        None => 1,
    }
}

/// How often a message has been received, by its queue attribute
/// `ApproximateReceiveCount`.
pub fn receive_count(attribute: Option<&str>) -> (r: u32)
    ensures
        r == times_received(attribute.deep_view()),
{
    match attribute {
        Some(text) => match parse_number(text, u32::MAX as u64) {
            Some(n) => n as u32,
            None => 1,
        },
        None => 1,
    }
}

/// A receive count that the queue writes in decimal is read as that number.
pub proof fn law_receive_count_reads_back(n: nat)
    requires
        n <= u32::MAX,
    ensures
        times_received(Some(decimal(n))) == n,
{
    law_decimal_reads_back(n);
}

// ---------------------------------------------------------------------------
// Output

/// The last `n` lines of `s`, which is trimmed of trailing white space first.
pub open spec fn tail_text(s: Seq<char>, n: nat) -> Seq<char> {
    let all = lines_of(end_trimmed(s));
    let start = if all.len() > n {
        all.len() - n
    } else {
        0
    };
    joined(all.skip(start), "\n"@)
}

/// Last `n` lines of `s`, trimmed of trailing whitespace.
pub fn tail_of(s: &str, n: usize) -> (r: String)
    ensures
        r@ == tail_text(s@, n as nat),
{
    let text = trim_end(s);
    let all = lines(text.as_str());
    assert(all.deep_view().len() == all@.len());
    let start: usize = if all.len() > n {
        all.len() - n
    } else {
        0
    };
    join_from(&all, start, "\n")
}

/// How many line feeds `s` holds.
pub open spec fn line_feeds(s: Seq<char>) -> nat
    decreases s.len(),
{
    if s.len() == 0 {
        0
    } else {
        line_feeds(s.drop_last()) + if s.last() == '\n' {
            1nat
        } else {
            0nat
        }
    }
}

proof fn lemma_line_feeds_add(a: Seq<char>, b: Seq<char>)
    ensures
        line_feeds(a + b) == line_feeds(a) + line_feeds(b),
    decreases b.len(),
{
    if b.len() == 0 {
        assert(a + b =~= a);
    } else {
        lemma_line_feeds_add(a, b.drop_last());
        assert((a + b).drop_last() =~= a + b.drop_last());
    }
}

proof fn lemma_no_line_feed(s: Seq<char>)
    requires
        !s.contains('\n'),
    ensures
        line_feeds(s) == 0,
    decreases s.len(),
{
    if s.len() > 0 {
        assert(s[s.len() - 1] != '\n');
        assert forall|i: int| 0 <= i < s.drop_last().len() implies s.drop_last()[i] != '\n' by {
            assert(s[i] != '\n');
        }
        lemma_no_line_feed(s.drop_last());
    }
}

proof fn lemma_line_end_range(s: Seq<char>, from: int)
    requires
        0 <= from <= s.len(),
    ensures
        from <= line_end(s, from) <= s.len(),
        forall|i: int| from <= i < line_end(s, from) ==> s[i] != '\n',
        line_end(s, from) < s.len() ==> s[line_end(s, from)] == '\n',
    decreases s.len() - from,
{
    if from < s.len() && s[from] != '\n' {
        lemma_line_end_range(s, from + 1);
    }
}

proof fn lemma_lines_hold_no_line_feed(s: Seq<char>, from: int)
    requires
        0 <= from,
    ensures
        forall|i: int|
            0 <= i < lines_from(s, from).len() ==> !(#[trigger] lines_from(s, from)[i]).contains(
                '\n',
            ),
    decreases s.len() - from,
{
    if from < s.len() {
        lemma_line_end_range(s, from);
        let end = line_end(s, from);
        let all = lines_from(s, from);
        if end < s.len() {
            lemma_lines_hold_no_line_feed(s, end + 1);
            let rest = lines_from(s, end + 1);
            assert forall|i: int| 0 <= i < all.len() implies !(#[trigger] all[i]).contains(
                '\n',
            ) by {
                if i > 0 {
                    assert(all[i] == rest[i - 1]);
                }
            }
        }
    }
}

proof fn lemma_joined_line_feeds(parts: Seq<Seq<char>>)
    requires
        forall|i: int| 0 <= i < parts.len() ==> !(#[trigger] parts[i]).contains('\n'),
    ensures
        line_feeds(joined(parts, "\n"@)) == if parts.len() > 0 {
            (parts.len() - 1) as nat
        } else {
            0
        },
    decreases parts.len(),
{
    reveal_strlit("\n");
    let sep = "\n"@;
    if parts.len() == 1 {
        lemma_no_line_feed(parts[0]);
    } else if parts.len() > 1 {
        assert forall|i: int| 0 <= i < parts.drop_last().len() implies !(
        #[trigger] parts.drop_last()[i]).contains('\n') by {
            assert(parts[i] == parts.drop_last()[i]);
        }
        lemma_joined_line_feeds(parts.drop_last());
        let head = joined(parts.drop_last(), sep);
        lemma_line_feeds_add(head, sep);
        lemma_line_feeds_add(head + sep, parts.last());
        lemma_no_line_feed(parts.last());
        assert(sep.drop_last() =~= Seq::empty());
        assert(line_feeds(sep.drop_last()) == 0);
        assert(line_feeds(sep) == 1);
    }
}

/// A tail of `n` lines is bounded: it has at most `n` lines.
pub proof fn law_tail_is_bounded(s: Seq<char>, n: nat)
    ensures
        n > 0 ==> line_feeds(tail_text(s, n)) < n,
        n == 0 ==> tail_text(s, n).len() == 0,
{
    let all = lines_of(end_trimmed(s));
    let start = if all.len() > n {
        all.len() - n
    } else {
        0
    };
    lemma_lines_hold_no_line_feed(end_trimmed(s), 0);
    let last = all.skip(start);
    assert forall|i: int| 0 <= i < last.len() implies !(#[trigger] last[i]).contains('\n') by {
        assert(last[i] == all[i + start]);
    }
    lemma_joined_line_feeds(last);
}

proof fn lemma_joined_front(first: Seq<char>, rest: Seq<Seq<char>>, sep: Seq<char>)
    requires
        rest.len() > 0,
    ensures
        joined(seq![first] + rest, sep) == first + sep + joined(rest, sep),
    decreases rest.len(),
{
    let all = seq![first] + rest;
    assert(all.drop_last() =~= seq![first] + rest.drop_last());
    assert(all.last() == rest.last());
    if rest.len() == 1 {
        assert(all.drop_last() =~= seq![first]);
        assert(joined(seq![first], sep) == first);
        assert(joined(all, sep) == joined(all.drop_last(), sep) + sep + all.last());
    } else {
        lemma_joined_front(first, rest.drop_last(), sep);
        assert(first + sep + joined(rest.drop_last(), sep) + sep + rest.last() =~= first + sep + (
        joined(rest.drop_last(), sep) + sep + rest.last()));
    }
}

proof fn lemma_lines_join(s: Seq<char>, from: int)
    requires
        0 <= from < s.len(),
        forall|i: int| 0 < i < s.len() && #[trigger] s[i] == '\n' ==> s[i - 1] != '\r',
        s.last() != '\n',
    ensures
        lines_from(s, from).len() > 0,
        joined(lines_from(s, from), "\n"@) == s.skip(from),
    decreases s.len() - from,
{
    reveal_strlit("\n");
    lemma_line_end_range(s, from);
    let end = line_end(s, from);
    if end < s.len() {
        assert(end + 1 < s.len());
        let line = s.subrange(from, end);
        assert(line.len() > 0 ==> line.last() == s[end - 1]);
        assert(without_return(line) == line);
        lemma_lines_join(s, end + 1);
        lemma_joined_front(line, lines_from(s, end + 1), "\n"@);
        assert(line + "\n"@ + s.skip(end + 1) =~= s.skip(from));
    } else {
        assert(s.subrange(from, s.len() as int) =~= s.skip(from));
    }
}

proof fn lemma_end_trimmed(s: Seq<char>)
    ensures
        end_trimmed(s).len() > 0 ==> !white_space(end_trimmed(s).last()),
        end_trimmed(s).is_prefix_of(s),
    decreases s.len(),
{
    if s.len() > 0 && white_space(s.last()) {
        lemma_end_trimmed(s.drop_last());
        assert(end_trimmed(s) =~= s.take(end_trimmed(s).len() as int));
    }
}

/// Output that is short enough is kept as it is, up to white space at its end,
/// where no carriage return stands before a line feed: a tail drops that one.
pub proof fn law_short_output_is_kept(s: Seq<char>, n: nat)
    requires
        lines_of(end_trimmed(s)).len() <= n,
        forall|i: int|
            0 < i < end_trimmed(s).len() && #[trigger] end_trimmed(s)[i] == '\n'
                ==> end_trimmed(s)[i - 1] != '\r',
    ensures
        tail_text(s, n) == end_trimmed(s),
{
    let t = end_trimmed(s);
    let all = lines_of(t);
    lemma_end_trimmed(s);
    assert(all.skip(0) =~= all);
    if t.len() > 0 {
        lemma_lines_join(t, 0);
        assert(t.skip(0) =~= t);
    } else {
        assert(t =~= Seq::empty());
    }
}

/// A tail that says which attempt it is of, from the second on.
pub open spec fn attempt_text(attempt: nat, tail: Seq<char>) -> Seq<char> {
    if attempt > 1 {
        "[attempt "@ + decimal(attempt) + ("]\n"@ + tail)
    } else {
        tail
    }
}

/// A tail that says which attempt it is of, from the second on.
pub fn attempt_tail(attempt: u32, tail: String) -> (r: String)
    ensures
        r@ == attempt_text(attempt as nat, tail@),
{
    if attempt > 1 {
        let count = decimal_text(attempt as u64);
        let end = joined2("]\n", tail.as_str());
        joined3("[attempt ", count.as_str(), end.as_str())
    } else {
        tail
    }
}

} // verus!
