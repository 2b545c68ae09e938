//! What is fixed for a worker's lifetime: the broker's address, the
//! timing of the session, the two workers' names and topics, and the length
//! of the generated list.

use crate::text::{parse_count, parsed_count};
use vstd::prelude::*;

verus! {

/// The host name of the broker.
pub const BROKER_HOST: &'static str = "mqtt_broker";

/// The port of the broker.
pub const BROKER_PORT: u16 = 1883;

/// How long one wait for the next broker event may last, in milliseconds.
pub const POLL_TIMEOUT_MS: u64 = 5000;

/// The keep-alive interval of the session, in seconds.
pub const KEEP_ALIVE_SECS: u64 = 30;

/// How many outbound requests the session may hold back.
pub const REQUEST_CAPACITY: usize = 50;

/// The length of the generated list where the setting is absent or is not
/// a count.
pub const DEFAULT_LIST_SIZE: usize = 5;

/// The name of the setting that holds the length of the generated list.
pub const LIST_SIZE_SETTING: &'static str = "LIST_SIZE";

/// The list length that a setting stands for: its count where it is
/// present and denotes one, the default otherwise.
pub open spec fn list_size_of(setting: Option<Seq<char>>) -> usize {
    match setting {
        Some(text) => match parsed_count(text) {
            Some(n) => n,
            None => DEFAULT_LIST_SIZE,
        },
        None => DEFAULT_LIST_SIZE,
    }
}

/// The view of an optional text.
pub open spec fn setting_view(setting: Option<&str>) -> Option<Seq<char>> {
    match setting {
        Some(text) => Some(text@),
        None => None,
    }
}

/// Reads the list length from the value of its setting, `None` standing
/// for a setting that is absent.
pub fn get_list_size(setting: Option<&str>) -> (size: usize)
    ensures
        size == list_size_of(setting_view(setting)),
{
    match setting {
        Some(text) => match parse_count(text) {
            Some(n) => n,
            None => DEFAULT_LIST_SIZE,
        },
        None => DEFAULT_LIST_SIZE,
    }
}

/// Delivery guarantees that the broker offers.
#[derive(Clone, Copy, Debug, PartialEq, Eq, Structural)]
pub enum QoS {
    AtMostOnce,
    AtLeastOnce,
    ExactlyOnce,
}

/// The two workers.
#[derive(Clone, Copy, Debug, PartialEq, Eq, Structural)]
pub enum WorkerKind {
    /// Answers a profile with a list of generated service records.
    RecordGeneration,
    /// Sends an aggregated record on, twice.
    Duplication,
}

impl WorkerKind {
    /// The identifier under which the worker connects to the broker.
    pub open spec fn client_id_text(self) -> Seq<char> {
        match self {
            WorkerKind::RecordGeneration => "service_c"@,
            WorkerKind::Duplication => "service_d"@,
        }
    }

    /// The topic on which the worker receives its requests.
    pub open spec fn request_topic_text(self) -> Seq<char> {
        match self {
            WorkerKind::RecordGeneration => "service_c/request"@,
            WorkerKind::Duplication => "service_d/request"@,
        }
    }

    /// The topic on which the worker publishes.
    pub open spec fn response_topic_text(self) -> Seq<char> {
        match self {
            WorkerKind::RecordGeneration => "service_a/response/c"@,
            WorkerKind::Duplication => "service_e/request"@,
        }
    }

    /// The tag that opens each line the worker logs.
    pub open spec fn label_text(self) -> Seq<char> {
        match self {
            WorkerKind::RecordGeneration => "[Service C]"@,
            WorkerKind::Duplication => "[Service D]"@,
        }
    }

    /// The identifier under which the worker connects to the broker.
    pub fn client_id(&self) -> (id: &'static str)
        ensures
            id@ == self.client_id_text(),
    {
        match self {
            WorkerKind::RecordGeneration => "service_c",
            WorkerKind::Duplication => "service_d",
        }
    }

    /// The topic on which the worker receives its requests.
    pub fn request_topic(&self) -> (topic: &'static str)
        ensures
            topic@ == self.request_topic_text(),
    {
        match self {
            WorkerKind::RecordGeneration => "service_c/request",
            WorkerKind::Duplication => "service_d/request",
        }
    }

    /// The topic on which the worker publishes.
    pub fn response_topic(&self) -> (topic: &'static str)
        ensures
            topic@ == self.response_topic_text(),
    {
        match self {
            WorkerKind::RecordGeneration => "service_a/response/c",
            WorkerKind::Duplication => "service_e/request",
        }
    }

    /// The tag that opens each line the worker logs.
    pub fn label(&self) -> (tag: &'static str)
        ensures
            tag@ == self.label_text(),
    {
        match self {
            WorkerKind::RecordGeneration => "[Service C]",
            WorkerKind::Duplication => "[Service D]",
        }
    }
}

/// What it takes to open a worker's session with the broker.
#[derive(Debug, PartialEq, Eq)]
pub struct SessionPlan {
    pub client_id: String,
    pub host: String,
    pub port: u16,
    pub keep_alive_secs: u64,
    pub capacity: usize,
    pub topic: String,
    pub qos: QoS,
}

/// What a [`SessionPlan`] holds.
pub struct SessionPlanView {
    pub client_id: Seq<char>,
    pub host: Seq<char>,
    pub port: u16,
    pub keep_alive_secs: u64,
    pub capacity: usize,
    pub topic: Seq<char>,
    pub qos: QoS,
}

impl View for SessionPlan {
    type V = SessionPlanView;

    open spec fn view(&self) -> SessionPlanView {
        SessionPlanView {
            client_id: self.client_id@,
            host: self.host@,
            port: self.port,
            keep_alive_secs: self.keep_alive_secs,
            capacity: self.capacity,
            topic: self.topic@,
            qos: self.qos,
        }
    }
}

/// The session of a worker: its own client identifier, the one broker, and
/// a single subscription, delivered at least once.
pub open spec fn session_plan_of(kind: WorkerKind) -> SessionPlanView {
    SessionPlanView {
        client_id: kind.client_id_text(),
        host: BROKER_HOST@,
        port: BROKER_PORT,
        keep_alive_secs: KEEP_ALIVE_SECS,
        capacity: REQUEST_CAPACITY,
        topic: kind.request_topic_text(),
        qos: QoS::AtLeastOnce,
    }
}

/// Lays out the session that a worker opens when it starts.
pub fn session_plan(kind: WorkerKind) -> (plan: SessionPlan)
    ensures
        plan@ == session_plan_of(kind),
{
    SessionPlan {
        client_id: kind.client_id().to_owned(),
        host: BROKER_HOST.to_owned(),
        port: BROKER_PORT,
        keep_alive_secs: KEEP_ALIVE_SECS,
        capacity: REQUEST_CAPACITY,
        topic: kind.request_topic().to_owned(),
        qos: QoS::AtLeastOnce,
    }
}

} // verus!
