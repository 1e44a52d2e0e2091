//! Data model of the actor-system backends: the actor tree, the system
//! status and the dead-letter metrics.

use vstd::prelude::*;
use vstd::string::*;
use crate::text::{decimal, push_decimal};
use crate::widgets::tree::TreeWidgetNode;

verus! {

/// Addresses and timing of the actor-system endpoints.
#[derive(Debug, PartialEq, Eq, Clone)]
pub struct AkkaSettings {
    pub tree_address: String,
    pub status_address: String,
    pub dead_letters_address: String,
    pub cluster_status_address: Option<String>,
    pub tree_timeout: u64,
    pub status_timeout: u64,
    pub dead_letters_window: u64,
}

/// Address of the cluster-status endpoint.
#[derive(Debug, PartialEq, Eq, Clone)]
pub struct AkkaClusterSettings {
    pub cluster_status_address: String,
}

/// One actor of the tree: the last segment of its path, the id of its
/// parent and its own id. Ids are handed out anew with every poll.
#[derive(Debug, PartialEq, Eq, Hash)]
pub struct ActorTreeNode {
    pub name: String,
    pub parent: Option<usize>,
    pub id: usize,
}

impl Clone for ActorTreeNode {
    fn clone(&self) -> (res: Self)
        ensures
            res == *self,
    {
        ActorTreeNode { name: self.name.clone(), parent: self.parent, id: self.id }
    }
}

/// An actor is drawn under its parent, labelled by its path segment.
impl TreeWidgetNode for ActorTreeNode {
    open spec fn spec_id(&self) -> usize {
        self.id
    }

    open spec fn spec_parent_id(&self) -> Option<usize> {
        self.parent
    }

    open spec fn spec_label(&self) -> Seq<char> {
        self.name@
    }

    fn id(&self) -> (id: usize) {
        self.id
    }

    fn parent_id(&self) -> (parent: Option<usize>) {
        self.parent
    }

    fn label(&self) -> (label: String) {
        self.name.clone()
    }
}

/// A value and the time, in milliseconds since the epoch, at which it
/// was seen.
#[derive(Debug, PartialEq, Eq, Hash, Clone)]
pub struct Timestamped<T> {
    pub value: T,
    pub timestamp: u64,
}

/// A message sent to an actor that no longer exists.
#[derive(Debug, PartialEq, Eq, Hash, Clone)]
pub struct DeadLettersMessage {
    pub message: String,
    pub sender: String,
    pub recipient: String,
}

/// A message that the system dropped, and why.
#[derive(Debug, PartialEq, Eq, Hash, Clone)]
pub struct DroppedMessage {
    pub message: String,
    pub sender: String,
    pub recipient: String,
    pub reason: String,
}

/// A message that its recipient did not handle.
#[derive(Debug, PartialEq, Eq, Hash, Clone)]
pub struct UnhandledMessage {
    pub message: String,
    pub sender: String,
    pub recipient: String,
}

/// The undelivered messages known at one poll, by cause.
#[derive(Debug, PartialEq, Eq, Hash, Clone)]
pub struct DeadLettersSnapshot {
    pub dead_letters: Vec<Timestamped<DeadLettersMessage>>,
    pub unhandled: Vec<Timestamped<UnhandledMessage>>,
    pub dropped: Vec<Timestamped<DroppedMessage>>,
}

/// Number of undelivered messages of one cause within a window.
#[derive(Debug, PartialEq, Eq, Hash, Clone, Copy, Structural)]
pub struct DeadLettersWindowData {
    pub count: u32,
    pub is_min_estimate: bool,
}

/// Numbers of undelivered messages within the last `within_millis`.
#[derive(Debug, PartialEq, Eq, Hash, Clone, Copy, Structural)]
pub struct DeadLettersWindow {
    pub within_millis: u64,
    pub dead_letters: DeadLettersWindowData,
    pub unhandled: DeadLettersWindowData,
    pub dropped: DeadLettersWindowData,
}

/// What the dead-letters endpoint answers.
#[derive(Debug, PartialEq, Eq, Hash, Clone)]
pub struct DeadLettersMetrics {
    pub snapshot: DeadLettersSnapshot,
    pub window: DeadLettersWindow,
}

/// An undelivered message of any cause, as the log shows it.
#[derive(Debug, PartialEq, Eq, Hash, Clone)]
pub struct DeadLettersUIMessage {
    pub message: String,
    pub sender: String,
    pub recipient: String,
    pub timestamp: u64,
    pub reason: Option<String>,
}

/// Size and age of the actor system.
#[derive(Debug, PartialEq, Eq, Hash, Clone, Copy, Structural)]
pub struct ActorSystemStatus {
    pub actor_count: u64,
    pub uptime: u64,
    pub start_time: u64,
}

/// One member of the cluster, as the cluster-status endpoint reports it.
#[derive(Debug, PartialEq, Eq, Hash, Clone)]
pub struct ClusterMember {
    pub node: String,
    pub node_uid: String,
    pub status: String,
    pub roles: Vec<String>,
}

/// State of the cluster as one of its nodes sees it.
#[derive(Debug, PartialEq, Eq, Hash, Clone)]
pub struct ClusterStatus {
    pub self_node: String,
    pub members: Vec<ClusterMember>,
    pub unreachable: Vec<String>,
    pub leader: String,
    pub oldest: String,
}

impl DeadLettersWindow {
    /// Sum of the three counts, as a mathematical integer.
    pub open spec fn spec_total(self) -> int {
        self.dead_letters.count + self.unhandled.count + self.dropped.count
    }

    /// The largest of the three counts, as a mathematical integer.
    pub open spec fn spec_max(self) -> int {
        let a = self.dead_letters.count;
        let b = self.unhandled.count;
        let c = self.dropped.count;
        if a >= b && a >= c {
            a as int
        } else if b >= c {
            b as int
        } else {
            c as int
        }
    }

    /// The largest of the three counts.
    pub fn max(&self) -> (m: u32)
        ensures
            m == self.spec_max(),
    {
        let a = self.dead_letters.count;
        let b = self.unhandled.count;
        let c = self.dropped.count;
        if a >= b && a >= c {
            a
        } else if b >= c {
            b
        } else {
            c
        }
    }

    /// Number of undelivered messages of all causes.
    pub fn total(&self) -> (t: u32)
        requires
            self.spec_total() <= u32::MAX,
        ensures
            t == self.spec_total(),
    {
        self.dead_letters.count + self.unhandled.count + self.dropped.count
    }
}

impl DeadLettersMessage {
    /// The message as the log shows it, seen at `ts`.
    pub fn to_ui(&self, ts: u64) -> (ui: DeadLettersUIMessage)
        ensures
            ui == (DeadLettersUIMessage {
                message: self.message,
                sender: self.sender,
                recipient: self.recipient,
                timestamp: ts,
                reason: None,
            }),
    {
        DeadLettersUIMessage {
            message: self.message.clone(),
            sender: self.sender.clone(),
            recipient: self.recipient.clone(),
            timestamp: ts,
            reason: None,
        }
    }
}

impl UnhandledMessage {
    /// The message as the log shows it, seen at `ts`.
    pub fn to_ui(&self, ts: u64) -> (ui: DeadLettersUIMessage)
        ensures
            ui == (DeadLettersUIMessage {
                message: self.message,
                sender: self.sender,
                recipient: self.recipient,
                timestamp: ts,
                reason: None,
            }),
    {
        DeadLettersUIMessage {
            message: self.message.clone(),
            sender: self.sender.clone(),
            recipient: self.recipient.clone(),
            timestamp: ts,
            reason: None,
        }
    }
}

impl DroppedMessage {
    /// The message as the log shows it, seen at `ts`, with the reason for
    /// which it was dropped.
    pub fn to_ui(&self, ts: u64) -> (ui: DeadLettersUIMessage)
        ensures
            ui == (DeadLettersUIMessage {
                message: self.message,
                sender: self.sender,
                recipient: self.recipient,
                timestamp: ts,
                reason: Some(self.reason),
            }),
    {
        DeadLettersUIMessage {
            message: self.message.clone(),
            sender: self.sender.clone(),
            recipient: self.recipient.clone(),
            timestamp: ts,
            reason: Some(self.reason.clone()),
        }
    }
}

/// How long ago something happened, in words: `just now` for nothing or
/// less, whole minutes from one minute on, seconds below that.
pub open spec fn age_text(seconds: int) -> Seq<char> {
    if seconds <= 0 {
        "just now"@
    } else if seconds / 60 > 0 {
        decimal((seconds / 60) as nat) + " min ago"@
    } else {
        decimal(seconds as nat) + " sec ago"@
    }
}

/// The one-line summary of a message seen at `timestamp` milliseconds,
/// read at `now` seconds.
pub open spec fn summary_text(message: Seq<char>, timestamp: u64, now: i64) -> Seq<char> {
    seq!['<'] + age_text(now - timestamp / 1000) + seq!['>', ' '] + message
}

/// Seconds since the epoch on the local clock.
///
/// Calls `chrono::Local::now().timestamp()`. Nothing is claimed of the
/// value: it is whatever the clock says.
#[verifier::external_body]
fn unix_now() -> (now: i64) {
    chrono::Local::now().timestamp()
}

impl DeadLettersUIMessage {
    /// Seconds since the epoch at which the message was seen.
    pub fn timestamp_seconds(&self) -> (seconds: u64)
        ensures
            seconds == self.timestamp / 1000,
    {
        self.timestamp / 1000
    }

    /// The summary of the message as read at `now` seconds since the
    /// epoch: its age in angle brackets, then the message.
    pub fn summary_at(&self, now: i64) -> (line: String)
        ensures
            line@ == summary_text(self.message@, self.timestamp, now),
    {
        proof {
            reveal_strlit("<");
            reveal_strlit("> ");
        }
        let seen = self.timestamp / 1000;
        let mut line = "<".to_owned();
        if now <= 0 || (now as u64) <= seen {
            line.append("just now");
        } else {
            let age = now as u64 - seen;
            if age / 60 > 0 {
                push_decimal(&mut line, age / 60);
                line.append(" min ago");
            } else {
                push_decimal(&mut line, age);
                line.append(" sec ago");
            }
        }
        line.append("> ");
        line.append(self.message.as_str());
        assert(line@ =~= summary_text(self.message@, self.timestamp, now));
        line
    }

    /// The summary of the message as read now. The age depends on the
    /// clock; the line is the one `summary_at` gives for some reading of
    /// it.
    pub fn summary(&self) -> (line: String)
        ensures
            exists|now: i64| line@ == summary_text(self.message@, self.timestamp, now),
    {
        let now = unix_now();
        self.summary_at(now)
    }
}

} // verus!
