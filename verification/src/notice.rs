//! What a worker reports while it runs, and the lines it logs for it.

use crate::config::WorkerKind;
use crate::text::{decimal_string, decimal_text};
use vstd::prelude::*;
use vstd::string::*;

verus! {

/// How grave a notice is. Informational lines go to the standard output,
/// the others to the standard error.
#[derive(Clone, Copy, Debug, PartialEq, Eq, Structural)]
pub enum Level {
    Info,
    Warning,
    Error,
}

/// One thing that a worker reports.
#[derive(Debug, PartialEq, Eq)]
pub enum Notice {
    /// The worker starts and subscribes.
    Started,
    /// The length of the lists that will be generated.
    ListSize(usize),
    /// No request arrived within the wait.
    TimedOut,
    /// Waiting for the next broker event failed.
    PollFailed(String),
    /// A request could not be decoded and was dropped.
    DecodeFailed(String),
    /// A record could not be encoded; its whole batch was withheld.
    EncodeFailed(String),
    /// The broker session refused a message.
    PublishFailed(String),
    /// A message was handed to the broker: the `ordinal`-th of its batch,
    /// counted from one, for the request that `subject` identifies.
    Published { ordinal: usize, subject: String },
    /// An event came that answers no pending action; the cycle it arrived
    /// in was given up.
    OutOfTurn,
}

/// What a [`Notice`] holds.
pub enum NoticeView {
    Started,
    ListSize(usize),
    TimedOut,
    PollFailed(Seq<char>),
    DecodeFailed(Seq<char>),
    EncodeFailed(Seq<char>),
    PublishFailed(Seq<char>),
    Published { ordinal: nat, subject: Seq<char> },
    OutOfTurn,
}

impl View for Notice {
    type V = NoticeView;

    open spec fn view(&self) -> NoticeView {
        match self {
            Notice::Started => NoticeView::Started,
            Notice::ListSize(n) => NoticeView::ListSize(*n),
            Notice::TimedOut => NoticeView::TimedOut,
            Notice::PollFailed(e) => NoticeView::PollFailed(e@),
            Notice::DecodeFailed(e) => NoticeView::DecodeFailed(e@),
            Notice::EncodeFailed(e) => NoticeView::EncodeFailed(e@),
            Notice::PublishFailed(e) => NoticeView::PublishFailed(e@),
            Notice::Published { ordinal, subject } => NoticeView::Published {
                ordinal: *ordinal as nat,
                subject: subject@,
            },
            Notice::OutOfTurn => NoticeView::OutOfTurn,
        }
    }
}

/// The views of a list of notices, in order.
pub open spec fn notice_views(notices: Seq<Notice>) -> Seq<NoticeView> {
    notices.map_values(|n: Notice| n@)
}

/// How grave each notice is: an idle wait is a warning, a failure an
/// error, the rest is information.
pub open spec fn level_of(notice: NoticeView) -> Level {
    match notice {
        NoticeView::Started => Level::Info,
        NoticeView::ListSize(_) => Level::Info,
        NoticeView::Published { .. } => Level::Info,
        NoticeView::TimedOut => Level::Warning,
        NoticeView::PollFailed(_) => Level::Error,
        NoticeView::DecodeFailed(_) => Level::Error,
        NoticeView::EncodeFailed(_) => Level::Error,
        NoticeView::PublishFailed(_) => Level::Error,
        NoticeView::OutOfTurn => Level::Error,
    }
}

/// The words of a notice, after the worker's tag.
pub open spec fn message_text(kind: WorkerKind, notice: NoticeView) -> Seq<char> {
    match notice {
        NoticeView::Started => " Starting and subscribing to requests"@,
        NoticeView::ListSize(n) => " Using LIST_SIZE="@ + decimal_text(n as nat),
        NoticeView::TimedOut => " Timeout waiting for request"@,
        NoticeView::PollFailed(e) => " Eventloop error: "@ + e,
        NoticeView::DecodeFailed(e) => match kind {
            WorkerKind::RecordGeneration => " Failed to deserialize profile: "@ + e,
            WorkerKind::Duplication => " Failed to deserialize AggregatedData: "@ + e,
        },
        NoticeView::EncodeFailed(e) => " Failed to serialize response: "@ + e,
        NoticeView::PublishFailed(e) => " Failed to publish response: "@ + e,
        NoticeView::Published { ordinal, subject } => match kind {
            WorkerKind::RecordGeneration => " Responded for profile "@ + subject,
            WorkerKind::Duplication => " Duplicated and sent record "@ + decimal_text(ordinal)
                + " for profile "@ + subject,
        },
        NoticeView::OutOfTurn => " Dropped an event that answers no pending action"@,
    }
}

/// The line that a worker logs for a notice: its tag, then the words.
pub open spec fn line_text(kind: WorkerKind, notice: NoticeView) -> Seq<char> {
    kind.label_text() + message_text(kind, notice)
}

impl Notice {
    /// Tells how grave the notice is.
    pub fn level(&self) -> (level: Level)
        ensures
            level == level_of(self@),
    {
        match self {
            Notice::Started => Level::Info,
            Notice::ListSize(_) => Level::Info,
            Notice::Published { .. } => Level::Info,
            Notice::TimedOut => Level::Warning,
            Notice::PollFailed(_) => Level::Error,
            Notice::DecodeFailed(_) => Level::Error,
            Notice::EncodeFailed(_) => Level::Error,
            Notice::PublishFailed(_) => Level::Error,
            Notice::OutOfTurn => Level::Error,
        }
    }

    /// Writes the line that the worker of the given kind logs for the notice.
    pub fn render(&self, kind: WorkerKind) -> (line: String)
        ensures
            line@ == line_text(kind, self@),
    {
        let mut line = String::from_str(kind.label());
        match self {
            Notice::Started => {
                line.append(" Starting and subscribing to requests");
            },
            Notice::ListSize(n) => {
                line.append(" Using LIST_SIZE=");
                line.append(decimal_string(*n).as_str());
            },
            Notice::TimedOut => {
                line.append(" Timeout waiting for request");
            },
            Notice::PollFailed(e) => {
                line.append(" Eventloop error: ");
                line.append(e.as_str());
            },
            Notice::DecodeFailed(e) => {
                match kind {
                    WorkerKind::RecordGeneration => {
                        line.append(" Failed to deserialize profile: ");
                    },
                    WorkerKind::Duplication => {
                        line.append(" Failed to deserialize AggregatedData: ");
                    },
                }
                line.append(e.as_str());
            },
            Notice::EncodeFailed(e) => {
                line.append(" Failed to serialize response: ");
                line.append(e.as_str());
            },
            Notice::PublishFailed(e) => {
                line.append(" Failed to publish response: ");
                line.append(e.as_str());
            },
            Notice::Published { ordinal, subject } => {
                match kind {
                    WorkerKind::RecordGeneration => {
                        line.append(" Responded for profile ");
                    },
                    WorkerKind::Duplication => {
                        line.append(" Duplicated and sent record ");
                        line.append(decimal_string(*ordinal).as_str());
                        line.append(" for profile ");
                    },
                }
                line.append(subject.as_str());
            },
            Notice::OutOfTurn => {
                line.append(" Dropped an event that answers no pending action");
            },
        }
        line
    }
}

} // verus!
