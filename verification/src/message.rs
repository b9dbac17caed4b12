//! What goes over the wire: the envelope that the distributor sends to the
//! agents, and the events that both publish about it.
use crate::text::same_text;
use crate::text_map::TextMap;
use vstd::prelude::*;

verus! {

/// A queue message: emitted by the distributor, consumed by the agent.
#[derive(Debug, Clone, PartialEq, Eq)]
pub struct Envelope {
    /// Dedup key (uuid). At-least-once delivery means the agent may see dupes.
    pub id: String,
    /// Action id; selects `/etc/flotswarm/actions.d/<action>.toml`.
    pub action: String,
    /// Host name, or `"all"` (default) for broadcast.
    pub target: String,
    /// Action-specific args, validated against the action's schema.
    pub args: TextMap<String>,
    /// Free-form provenance, e.g. `"github:acme/site"`.
    pub source: Option<String>,
    /// RFC3339 timestamp.
    pub ts: String,
}

/// What an [`Envelope`] says.
pub struct EnvelopeModel {
    pub id: Seq<char>,
    pub action: Seq<char>,
    pub target: Seq<char>,
    pub args: Seq<(Seq<char>, Seq<char>)>,
    pub source: Option<Seq<char>>,
    pub ts: Seq<char>,
}

impl DeepView for Envelope {
    type V = EnvelopeModel;

    open spec fn deep_view(&self) -> EnvelopeModel {
        EnvelopeModel {
            id: self.id@,
            action: self.action@,
            target: self.target@,
            args: self.args.deep_view(),
            source: self.source.deep_view(),
            ts: self.ts@,
        }
    }
}

/// The target of a message that names none: every host.
pub fn default_target() -> (r: String)
    ensures
        r@ == "all"@,
{
    "all".to_owned()
}

impl EnvelopeModel {
    /// Whether the message is addressed to `host`.
    pub open spec fn is_for(self, host: Seq<char>) -> bool {
        self.target == "all"@ || self.target == host
    }
}

impl Envelope {
    /// Whether this message is addressed to `host` (exact match or `"all"`).
    pub fn targets(&self, host: &str) -> (r: bool)
        ensures
            r == self.deep_view().is_for(host@),
    {
        same_text(self.target.as_str(), "all") || same_text(self.target.as_str(), host)
    }
}

/// A message with the default target reaches every host.
pub proof fn law_default_target_reaches_all(m: EnvelopeModel, host: Seq<char>)
    requires
        m.target == "all"@,
    ensures
        m.is_for(host),
{
}

/// A message that names a host reaches that host and no other.
pub proof fn law_named_target_reaches_one(m: EnvelopeModel, host: Seq<char>)
    requires
        m.target != "all"@,
    ensures
        m.is_for(host) <==> host == m.target,
{
}

/// Per-action notification preference (the `notify` field in an action TOML).
#[derive(Debug, Clone, Copy, PartialEq, Eq, Structural)]
pub enum NotifyMode {
    /// Emit on both success and failure.
    Always,
    /// Emit only when the action fails.
    OnError,
    /// Never emit an outcome notification.
    Never,
}

impl Default for NotifyMode {
    fn default() -> (r: Self)
        ensures
            r == NotifyMode::Always,
    {
        NotifyMode::Always
    }
}

impl NotifyMode {
    /// Whether the outcome of an action is published.
    pub open spec fn emits(self, ok: bool) -> bool {
        self == NotifyMode::Always || (self == NotifyMode::OnError && !ok)
    }

    /// Whether to publish given the action's success/failure.
    pub fn should_emit(&self, ok: bool) -> (r: bool)
        ensures
            r == self.emits(ok),
    {
        match self {
            NotifyMode::Always => true,
            NotifyMode::OnError => !ok,
            NotifyMode::Never => false,
        }
    }
}

/// A failure is published unless the action never notifies, and whatever is
/// published of a success is published of a failure too.
pub proof fn law_failures_are_published(mode: NotifyMode)
    ensures
        mode.emits(false) <==> mode != NotifyMode::Never,
        mode.emits(true) ==> mode.emits(false),
{
}

/// Notification event published to the bus by the distributor (dispatch) and
/// the agents (outcome). One topic carries both.
#[derive(Debug, Clone, PartialEq, Eq)]
pub enum NotifyEvent {
    /// A hook fired at the distributor.
    Dispatch {
        hook: String,
        action: String,
        /// Host queues the envelope was sent to, by their hosts.
        targets: Vec<String>,
        source: Option<String>,
        /// What became of the hook: `"dispatched"`.
        outcome: String,
    },
    /// An agent finished running an action.
    Outcome {
        host: String,
        action: String,
        source: Option<String>,
        /// Envelope id (dedup key).
        id: String,
        ok: bool,
        exit_code: Option<i32>,
        /// How long the action took: whole seconds, and the nanoseconds beyond.
        duration_secs: u64,
        duration_nanos: u32,
        /// Last lines of combined stdout+stderr (bounded).
        tail: String,
    },
}

/// What a [`NotifyEvent`] says.
pub enum NotifyModel {
    Dispatch {
        hook: Seq<char>,
        action: Seq<char>,
        targets: Seq<Seq<char>>,
        source: Option<Seq<char>>,
        outcome: Seq<char>,
    },
    Outcome {
        host: Seq<char>,
        action: Seq<char>,
        source: Option<Seq<char>>,
        id: Seq<char>,
        ok: bool,
        exit_code: Option<i32>,
        duration_secs: u64,
        duration_nanos: u32,
        tail: Seq<char>,
    },
}

impl DeepView for NotifyEvent {
    type V = NotifyModel;

    open spec fn deep_view(&self) -> NotifyModel {
        match self {
            NotifyEvent::Dispatch { hook, action, targets, source, outcome } => {
                NotifyModel::Dispatch {
                    hook: hook@,
                    action: action@,
                    targets: targets.deep_view(),
                    source: source.deep_view(),
                    outcome: outcome@,
                }
            },
            NotifyEvent::Outcome {
                host,
                action,
                source,
                id,
                ok,
                exit_code,
                duration_secs,
                duration_nanos,
                tail,
            } => NotifyModel::Outcome {
                host: host@,
                action: action@,
                source: source.deep_view(),
                id: id@,
                ok: *ok,
                exit_code: *exit_code,
                duration_secs: *duration_secs,
                duration_nanos: *duration_nanos,
                tail: tail@,
            },
        }
    }
}

} // verus!
