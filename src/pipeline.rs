use vstd::prelude::*;
use vstd::string::StringExecFns;
use crate::keys::{
    idem_key, rate_key, spec_idem_key, spec_rate_key, IDEMPOTENCY_TTL_SECS, RESERVED_SENTINEL,
};
use crate::idempotency::idempotency_finalize;
use crate::publisher::{routing_key, spec_routing_key};
use crate::rate_limit::{rate_limit_check, spec_admits, window_starts};
use crate::status::{set_status, utc_timestamp_text, StatusWrite};
use crate::types::{
    clone_text, same_text, GatewayError, NotificationStatus, NotificationType, UserData,
};

verus! {

/// Route name under which ingestion requests are counted.
pub const NOTIFICATION_ROUTE: &'static str = "create_notification";

/// Ingestion requests admitted per client and window.
pub const NOTIFICATION_RATE_LIMIT: u32 = 60;

/// Length of the ingestion rate-limit window, in seconds.
pub const NOTIFICATION_WINDOW_SECS: u64 = 60;

/// Message of the store error reported when a reply does not answer the pending operation.
pub const UNEXPECTED_REPLY: &'static str = "unexpected reply from the store";

/// A lower-case hexadecimal digit.
pub open spec fn lower_hex(c: char) -> bool {
    ('0' <= c && c <= '9') || ('a' <= c && c <= 'f')
}

/// The hyphenated text of a version 4 UUID: 36 characters, hyphens at 8,
/// 13, 18 and 23, lower-case hex digits elsewhere, and the version digit `4`
/// at 14.
pub open spec fn uuid_v4_text(s: Seq<char>) -> bool {
    &&& s.len() == 36
    &&& forall|i: int|
        0 <= i < 36 ==> if i == 8 || i == 13 || i == 18 || i == 23 {
            #[trigger] s[i] == '-'
        } else {
            lower_hex(s[i])
        }
    &&& s[14] == '4'
}

/// Relies on uuid::Uuid::new_v4, which sets version 4, and its Display,
/// which writes the lower-case hyphenated form. The value is random.
#[verifier::external_body]
fn new_notification_id() -> (r: String)
    ensures
        uuid_v4_text(r@),
{
    uuid::Uuid::new_v4().to_string()
}

/// A validated request to send one notification.
#[derive(Debug)]
pub struct NotificationRequest {
    pub notification_type: NotificationType,
    pub user_id: String,
    pub template_code: String,
    pub variables: UserData,
    pub request_id: String,
    pub priority: i32,
    pub metadata: Option<String>,
}

/// The message handed to the broker for one accepted request.
#[derive(Debug)]
pub struct NotificationEnvelope {
    pub notification_id: String,
    pub notification_type: NotificationType,
    pub user_id: String,
    pub template_code: String,
    pub variables: UserData,
    pub priority: i32,
    pub metadata: Option<String>,
    pub request_id: String,
    pub enqueued_at: String,
}

impl NotificationEnvelope {
    /// The envelope carries the request's fields under the given notification id.
    pub open spec fn carries(self, req: NotificationRequest, notification_id: Seq<char>) -> bool {
        &&& self.notification_id@ == notification_id
        &&& self.notification_type == req.notification_type
        &&& self.user_id@ == req.user_id@
        &&& self.template_code@ == req.template_code@
        &&& self.variables.same_as(req.variables)
        &&& self.priority == req.priority
        &&& same_text(self.metadata, req.metadata)
        &&& self.request_id@ == req.request_id@
    }
}

/// A routed publish: the envelope goes to `exchange` under `routing_key`,
/// as a persistent message when `persistent` holds, and only a broker
/// confirmation counts as success.
#[derive(Debug)]
pub struct Publication {
    pub exchange: String,
    pub routing_key: String,
    pub persistent: bool,
    pub envelope: NotificationEnvelope,
}

/// The persistent publish of an envelope, routed by its notification type.
pub fn publish_notification(exchange: &str, envelope: NotificationEnvelope) -> (r: Publication)
    ensures
        r.exchange@ == exchange@,
        r.routing_key@ == spec_routing_key(envelope.notification_type),
        r.persistent,
        r.envelope == envelope,
{
    let key = routing_key(&envelope.notification_type);
    Publication {
        exchange: String::from_str(exchange),
        routing_key: String::from_str(key),
        persistent: true,
        envelope,
    }
}

/// How an accepted request was answered.
#[derive(Debug)]
pub enum Submission {
    /// Newly enqueued under this id.
    Enqueued(String),
    /// The request id was seen before: the value found under it.
    Duplicate(String),
}

/// One operation for the caller to perform on the store or the broker.
#[derive(Debug)]
pub enum Action {
    /// Atomic increment; answered by `Reply::Count`.
    Incr { key: String },
    /// Set the key's time to live; answered by `Reply::Done`.
    Expire { key: String, secs: u64 },
    /// Answered by `Reply::Flag`.
    Exists { key: String },
    /// Answered by `Reply::Value`.
    Get { key: String },
    /// Atomic create-if-absent that also sets the time to live, so the key
    /// never exists without an expiry; answered by `Reply::Flag`, true when written.
    SetNx { key: String, value: String, secs: u64 },
    /// Unconditional write with a time to live; answered by `Reply::Done`.
    SetEx { key: String, value: String, secs: u64 },
    /// Answered by `Reply::Done`.
    WriteStatus { write: StatusWrite },
    /// Answered by `Reply::Done` once the broker confirms.
    Publish { publication: Publication },
    /// The request is over: answer the client.
    Respond { outcome: Result<Submission, GatewayError> },
}

/// What performing an action gave back.
#[derive(Debug)]
pub enum Reply {
    Count(i64),
    Flag(bool),
    Value(Option<String>),
    Done,
    /// The store or the broker failed, with its message.
    Failed(String),
}

/// Where one request stands.
#[derive(Clone, Copy, Debug, PartialEq, Eq, Structural)]
pub enum Stage {
    Counting,
    OpeningWindow { count: i64 },
    CheckingKey,
    ReadingKey,
    Claiming,
    Publishing,
    Finalizing,
    RecordingStatus,
    Finished,
}

/// The stage that follows a reply. Checks run in a fixed order: rate limit,
/// idempotency reservation, publish, finalize, initial status.
pub open spec fn next_stage(stage: Stage, reply: Reply, limit: u32) -> Stage {
    match (stage, reply) {
        (Stage::Counting, Reply::Count(c)) => if c == 1 {
            Stage::OpeningWindow { count: c }
        } else if spec_admits(c as int, limit as int) {
            Stage::CheckingKey
        } else {
            Stage::Finished
        },
        (Stage::OpeningWindow { count }, Reply::Done) => if spec_admits(count as int, limit as int) {
            Stage::CheckingKey
        } else {
            Stage::Finished
        },
        (Stage::CheckingKey, Reply::Flag(b)) => if b {
            Stage::ReadingKey
        } else {
            Stage::Claiming
        },
        (Stage::ReadingKey, Reply::Value(v)) => if v is Some {
            Stage::Finished
        } else {
            Stage::Claiming
        },
        (Stage::Claiming, Reply::Flag(b)) => if b {
            Stage::Publishing
        } else {
            Stage::ReadingKey
        },
        (Stage::Publishing, Reply::Done) => Stage::Finalizing,
        (Stage::Finalizing, Reply::Done) => Stage::RecordingStatus,
        _ => Stage::Finished,
    }
}

/// The answer given when a reply ends the request.
pub enum OutcomeView {
    Enqueued(Seq<char>),
    Duplicate(Seq<char>),
    RateLimited,
    Store(Seq<char>),
    Broker(Seq<char>),
    /// The reply did not answer the pending operation.
    Unexpected,
}

pub open spec fn spec_outcome(stage: Stage, reply: Reply, notification_id: Seq<char>) -> OutcomeView {
    match reply {
        Reply::Failed(e) => if stage is Publishing {
            OutcomeView::Broker(e@)
        } else {
            OutcomeView::Store(e@)
        },
        Reply::Value(v) => if stage is ReadingKey && v is Some {
            OutcomeView::Duplicate(v->Some_0@)
        } else {
            OutcomeView::Unexpected
        },
        Reply::Count(_) => if stage is Counting {
            OutcomeView::RateLimited
        } else {
            OutcomeView::Unexpected
        },
        Reply::Done => if stage is RecordingStatus {
            OutcomeView::Enqueued(notification_id)
        } else if stage is OpeningWindow {
            OutcomeView::RateLimited
        } else {
            OutcomeView::Unexpected
        },
        Reply::Flag(_) => OutcomeView::Unexpected,
    }
}


pub open spec fn outcome_matches(o: Result<Submission, GatewayError>, v: OutcomeView) -> bool {
    match v {
        OutcomeView::Enqueued(id) => o is Ok && o->Ok_0 is Enqueued && o->Ok_0->Enqueued_0@ == id,
        OutcomeView::Duplicate(id) => o is Ok && o->Ok_0 is Duplicate && o->Ok_0->Duplicate_0@ == id,
        OutcomeView::RateLimited => o is Err && o->Err_0 is RateLimited,
        OutcomeView::Store(e) => o is Err && o->Err_0 is Redis && o->Err_0->Redis_0@ == e,
        OutcomeView::Broker(e) => o is Err && o->Err_0 is Rabbit && o->Err_0->Rabbit_0@ == e,
        OutcomeView::Unexpected => o is Err && o->Err_0 is Redis && o->Err_0->Redis_0@
            == UNEXPECTED_REPLY@,
    }
}

fn advance(stage: Stage, reply: &Reply, limit: u32) -> (r: Stage)
    ensures
        r == next_stage(stage, *reply, limit),
{
    match (stage, reply) {
        (Stage::Counting, Reply::Count(c)) => {
            if window_starts(*c) {
                Stage::OpeningWindow { count: *c }
            } else if rate_limit_check(*c, limit).is_ok() {
                Stage::CheckingKey
            } else {
                Stage::Finished
            }
        },
        (Stage::OpeningWindow { count }, Reply::Done) => {
            if rate_limit_check(count, limit).is_ok() {
                Stage::CheckingKey
            } else {
                Stage::Finished
            }
        },
        (Stage::CheckingKey, Reply::Flag(b)) => if *b {
            Stage::ReadingKey
        } else {
            Stage::Claiming
        },
        (Stage::ReadingKey, Reply::Value(v)) => if v.is_some() {
            Stage::Finished
        } else {
            Stage::Claiming
        },
        (Stage::Claiming, Reply::Flag(b)) => if *b {
            Stage::Publishing
        } else {
            Stage::ReadingKey
        },
        (Stage::Publishing, Reply::Done) => Stage::Finalizing,
        (Stage::Finalizing, Reply::Done) => Stage::RecordingStatus,
        _ => Stage::Finished,
    }
}

fn conclude(stage: Stage, reply: Reply, notification_id: &String) -> (r: Result<Submission, GatewayError>)
    ensures
        outcome_matches(r, spec_outcome(stage, reply, notification_id@)),
{
    match reply {
        Reply::Failed(e) => if stage == Stage::Publishing {
            Err(GatewayError::Rabbit(e))
        } else {
            Err(GatewayError::Redis(e))
        },
        Reply::Value(v) => match v {
            Some(found) => if stage == Stage::ReadingKey {
                Ok(Submission::Duplicate(found))
            } else {
                Err(GatewayError::Redis(String::from_str(UNEXPECTED_REPLY)))
            },
            None => Err(GatewayError::Redis(String::from_str(UNEXPECTED_REPLY))),
        },
        Reply::Count(_) => if stage == Stage::Counting {
            Err(GatewayError::RateLimited)
        } else {
            Err(GatewayError::Redis(String::from_str(UNEXPECTED_REPLY)))
        },
        Reply::Done => match stage {
            Stage::RecordingStatus => Ok(Submission::Enqueued(notification_id.clone())),
            Stage::OpeningWindow { .. } => Err(GatewayError::RateLimited),
            _ => Err(GatewayError::Redis(String::from_str(UNEXPECTED_REPLY))),
        },
        Reply::Flag(_) => Err(GatewayError::Redis(String::from_str(UNEXPECTED_REPLY))),
    }
}

/// The ingestion of one request, driven by its caller: each reply to the
/// pending action yields the next action, until `Action::Respond`.
#[derive(Debug)]
pub struct IngestionPipeline {
    pub request: NotificationRequest,
    pub client_key: String,
    pub exchange: String,
    pub limit: u32,
    pub window_secs: u64,
    pub ttl_secs: u64,
    pub stage: Stage,
    /// The id generated for the request once its key is claimed; empty before.
    pub notification_id: String,
}

/// `a` is the action that `p`, having just moved from `prev` on `reply`, asks for.
pub open spec fn action_fits(p: IngestionPipeline, prev: Stage, reply: Reply, a: Action) -> bool {
    let idem = spec_idem_key(p.request.request_id@);
    match (p.stage, a) {
        (Stage::OpeningWindow { .. }, Action::Expire { key, secs }) => key@ == spec_rate_key(
            p.client_key@,
            NOTIFICATION_ROUTE@,
        ) && secs == p.window_secs,
        (Stage::CheckingKey, Action::Exists { key }) => key@ == idem,
        (Stage::ReadingKey, Action::Get { key }) => key@ == idem,
        (Stage::Claiming, Action::SetNx { key, value, secs }) => key@ == idem && value@
            == RESERVED_SENTINEL@ && secs == p.ttl_secs,
        (Stage::Publishing, Action::Publish { publication }) => {
            &&& publication.exchange@ == p.exchange@
            &&& publication.routing_key@ == spec_routing_key(p.request.notification_type)
            &&& publication.persistent
            &&& publication.envelope.carries(p.request, p.notification_id@)
            &&& utc_timestamp_text(publication.envelope.enqueued_at@)
        },
        (Stage::Finalizing, Action::SetEx { key, value, secs }) => key@ == idem && value@
            == p.notification_id@ && secs == p.ttl_secs,
        (Stage::RecordingStatus, Action::WriteStatus { write }) => exists|t: Seq<char>|
            utc_timestamp_text(t) && write.describes(p.notification_id@, NotificationStatus::Pending, t, None),
        (Stage::Finished, Action::Respond { outcome }) => outcome_matches(
            outcome,
            spec_outcome(prev, reply, p.notification_id@),
        ),
        _ => false,
    }
}

impl IngestionPipeline {
    /// The configuration of the pipeline stays as it was started.
    pub open spec fn same_setup(self, o: IngestionPipeline) -> bool {
        &&& self.request == o.request
        &&& self.client_key == o.client_key
        &&& self.exchange == o.exchange
        &&& self.limit == o.limit
        &&& self.window_secs == o.window_secs
        &&& self.ttl_secs == o.ttl_secs
    }

    /// Begins the ingestion of `request` from `client_key`, publishing to
    /// `exchange`: the first action counts the request in its rate window.
    pub fn start(request: NotificationRequest, client_key: String, exchange: String) -> (r: (
        IngestionPipeline,
        Action,
    ))
        ensures
            r.0.request == request,
            r.0.client_key == client_key,
            r.0.exchange == exchange,
            r.0.limit == NOTIFICATION_RATE_LIMIT,
            r.0.window_secs == NOTIFICATION_WINDOW_SECS,
            r.0.ttl_secs == IDEMPOTENCY_TTL_SECS,
            r.0.stage == Stage::Counting,
            r.0.notification_id@ == Seq::<char>::empty(),
            r.1 is Incr && r.1->Incr_key@ == spec_rate_key(client_key@, NOTIFICATION_ROUTE@),
    {
        let key = rate_key(client_key.as_str(), NOTIFICATION_ROUTE);
        let p = IngestionPipeline {
            request,
            client_key,
            exchange,
            limit: NOTIFICATION_RATE_LIMIT,
            window_secs: NOTIFICATION_WINDOW_SECS,
            ttl_secs: IDEMPOTENCY_TTL_SECS,
            stage: Stage::Counting,
            notification_id: String::new(),
        };
        (p, Action::Incr { key })
    }

    /// Takes the reply to the pending action and returns the next one. The
    /// notification id is generated once the idempotency key is claimed.
    pub fn on_reply(&mut self, reply: Reply) -> (a: Action)
        ensures
            final(self).same_setup(*old(self)),
            final(self).stage == next_stage(old(self).stage, reply, old(self).limit),
            final(self).stage is Publishing ==> uuid_v4_text(final(self).notification_id@),
            !(final(self).stage is Publishing) ==> final(self).notification_id == old(self).notification_id,
            action_fits(*final(self), old(self).stage, reply, a),
    {
        let ghost r0 = reply;
        let prev = self.stage;
        let next = advance(prev, &reply, self.limit);
        self.stage = next;
        assert(!(next is Counting));
        let a = match next {
            Stage::Counting => {
                // no reply leads back to counting
                proof {
                    assert(false);
                }
                Action::Respond { outcome: Err(GatewayError::Redis(String::from_str(UNEXPECTED_REPLY))) }
            },
            Stage::OpeningWindow { .. } => Action::Expire {
                key: rate_key(self.client_key.as_str(), NOTIFICATION_ROUTE),
                secs: self.window_secs,
            },
            Stage::CheckingKey => Action::Exists { key: idem_key(self.request.request_id.as_str()) },
            Stage::ReadingKey => Action::Get { key: idem_key(self.request.request_id.as_str()) },
            Stage::Claiming => Action::SetNx {
                key: idem_key(self.request.request_id.as_str()),
                value: String::from_str(RESERVED_SENTINEL),
                secs: self.ttl_secs,
            },
            Stage::Publishing => {
                self.notification_id = new_notification_id();
                let envelope = self.envelope();
                Action::Publish { publication: publish_notification(self.exchange.as_str(), envelope) }
            },
            Stage::Finalizing => idempotency_finalize(
                self.request.request_id.as_str(),
                self.notification_id.as_str(),
                self.ttl_secs,
            ),
            Stage::RecordingStatus => {
                let write = set_status(self.notification_id.as_str(), NotificationStatus::Pending, None);
                let ghost t = choose|t: Seq<char>|
                    utc_timestamp_text(t) && write.describes(self.notification_id@, NotificationStatus::Pending, t, None);
                assert(write.describes(self.notification_id@, NotificationStatus::Pending, t, None));
                let a = Action::WriteStatus { write };
                assert(utc_timestamp_text(t) && a->WriteStatus_write.describes(
                    self.notification_id@,
                    NotificationStatus::Pending,
                    t,
                    None,
                ));
                assert(action_fits(*self, prev, r0, a));
                a
            },
            Stage::Finished => Action::Respond {
                outcome: conclude(prev, reply, &self.notification_id),
            },
        };
        a
    }

    /// The message for the broker, stamped with the current time.
    fn envelope(&self) -> (r: NotificationEnvelope)
        ensures
            r.carries(self.request, self.notification_id@),
            utc_timestamp_text(r.enqueued_at@),
    {
        NotificationEnvelope {
            notification_id: self.notification_id.clone(),
            notification_type: self.request.notification_type,
            user_id: self.request.user_id.clone(),
            template_code: self.request.template_code.clone(),
            variables: self.request.variables.duplicate(),
            priority: self.request.priority,
            metadata: clone_text(&self.request.metadata),
            request_id: self.request.request_id.clone(),
            enqueued_at: crate::status::now_rfc3339(),
        }
    }
}

} // verus!
