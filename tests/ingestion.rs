use notify_gateway::keys::{RESERVED_SENTINEL, STATUS_TTL_SECS};
use notify_gateway::pipeline::{
    Action, IngestionPipeline, NotificationRequest, Reply, Stage, Submission, UNEXPECTED_REPLY,
};
use notify_gateway::types::{GatewayError, NotificationType, UserData};
use std::collections::{HashMap, HashSet};

#[derive(Default)]
struct FakeStore {
    strings: HashMap<String, String>,
    counters: HashMap<String, i64>,
    hashes: HashMap<String, HashMap<String, String>>,
    ttls: HashMap<String, u64>,
    published: Vec<(String, String, String)>,
    fail_publish: bool,
    fail_store: bool,
}

impl FakeStore {
    fn perform(&mut self, a: &Action) -> Reply {
        if self.fail_store && !matches!(a, Action::Publish { .. }) {
            return Reply::Failed("connection refused".to_string());
        }
        match a {
            Action::Incr { key } => {
                let c = self.counters.entry(key.clone()).or_insert(0);
                *c += 1;
                Reply::Count(*c)
            }
            Action::Expire { key, secs } => {
                self.ttls.insert(key.clone(), *secs);
                Reply::Done
            }
            Action::Exists { key } => Reply::Flag(self.strings.contains_key(key)),
            Action::Get { key } => Reply::Value(self.strings.get(key).cloned()),
            Action::SetNx { key, value, secs } => {
                if self.strings.contains_key(key) {
                    Reply::Flag(false)
                } else {
                    self.strings.insert(key.clone(), value.clone());
                    self.ttls.insert(key.clone(), *secs);
                    Reply::Flag(true)
                }
            }
            Action::SetEx { key, value, secs } => {
                self.strings.insert(key.clone(), value.clone());
                self.ttls.insert(key.clone(), *secs);
                Reply::Done
            }
            Action::WriteStatus { write } => {
                let h = self.hashes.entry(write.key.clone()).or_default();
                for (f, v) in write.fields.iter() {
                    h.insert(f.clone(), v.clone());
                }
                for f in write.removed.iter() {
                    h.remove(f);
                }
                self.ttls.insert(write.key.clone(), write.ttl_secs);
                Reply::Done
            }
            Action::Publish { publication } => {
                if self.fail_publish {
                    return Reply::Failed("channel closed".to_string());
                }
                self.published.push((
                    publication.exchange.clone(),
                    publication.routing_key.clone(),
                    publication.envelope.notification_id.clone(),
                ));
                Reply::Done
            }
            Action::Respond { .. } => panic!("respond is not a store operation"),
        }
    }
}

fn request(t: NotificationType, request_id: &str) -> NotificationRequest {
    NotificationRequest {
        notification_type: t,
        user_id: "6f1c2a0e-8a1b-4f7e-9d43-2b1f0c9a7e55".to_string(),
        template_code: "welcome".to_string(),
        variables: UserData {
            name: "Ada".to_string(),
            link: "https://example.com/welcome".to_string(),
            meta: None,
        },
        request_id: request_id.to_string(),
        priority: 1,
        metadata: Some("{\"campaign\":\"spring\"}".to_string()),
    }
}

fn submit(store: &mut FakeStore, req: NotificationRequest, client: &str) -> Result<Submission, GatewayError> {
    let (mut p, mut a) =
        IngestionPipeline::start(req, client.to_string(), "notifications.direct".to_string());
    loop {
        if let Action::Respond { outcome } = a {
            assert_eq!(p.stage, Stage::Finished);
            return outcome;
        }
        let reply = store.perform(&a);
        a = p.on_reply(reply);
    }
}

#[test]
fn accepted_request_is_published_finalized_and_pending() {
    let mut store = FakeStore::default();
    let out = submit(&mut store, request(NotificationType::Email, "req-1"), "10.0.0.1");
    let id = match out {
        Ok(Submission::Enqueued(id)) => id,
        other => panic!("unexpected outcome {:?}", other),
    };
    assert_eq!(id.len(), 36);
    for (i, c) in id.chars().enumerate() {
        if [8, 13, 18, 23].contains(&i) {
            assert_eq!(c, '-');
        } else {
            assert!(c.is_ascii_digit() || ('a'..='f').contains(&c));
        }
    }
    assert_eq!(id.chars().nth(14), Some('4'));
    assert_eq!(store.published.len(), 1);
    assert_eq!(store.published[0].0, "notifications.direct");
    assert_eq!(store.published[0].1, "email");
    assert_eq!(store.published[0].2, id);
    assert_eq!(store.strings.get("idem:req-1"), Some(&id));
    assert_eq!(store.ttls.get("idem:req-1"), Some(&86400));
    let rec = store.hashes.get(&format!("notif:{}", id)).unwrap();
    assert_eq!(rec.get("status").map(|s| s.as_str()), Some("pending"));
    assert!(rec.contains_key("updated_at"));
    assert!(!rec.contains_key("error"));
    assert_eq!(store.ttls.get(&format!("notif:{}", id)), Some(&STATUS_TTL_SECS));
    assert_eq!(store.counters.get("rate:10.0.0.1:create_notification"), Some(&1));
    assert_eq!(store.ttls.get("rate:10.0.0.1:create_notification"), Some(&60));
}

#[test]
fn resubmission_returns_same_id_and_publishes_once() {
    let mut store = FakeStore::default();
    let first = submit(&mut store, request(NotificationType::Email, "R"), "10.0.0.2");
    let x = match first {
        Ok(Submission::Enqueued(id)) => id,
        other => panic!("unexpected outcome {:?}", other),
    };
    let second = submit(&mut store, request(NotificationType::Email, "R"), "10.0.0.2");
    match second {
        Ok(Submission::Duplicate(id)) => assert_eq!(id, x),
        other => panic!("unexpected outcome {:?}", other),
    }
    assert_eq!(store.published.len(), 1);
}

#[test]
fn email_is_routed_by_email_key_and_push_by_push_key() {
    let mut store = FakeStore::default();
    submit(&mut store, request(NotificationType::Email, "e"), "c").unwrap();
    submit(&mut store, request(NotificationType::Push, "p"), "c").unwrap();
    assert_eq!(store.published[0].1, "email");
    assert_eq!(store.published[1].1, "push");
}

#[test]
fn sixty_first_request_in_window_is_rate_limited() {
    let mut store = FakeStore::default();
    for i in 0..60 {
        let out = submit(&mut store, request(NotificationType::Push, &format!("r{}", i)), "1.1.1.1");
        assert!(matches!(out, Ok(Submission::Enqueued(_))), "call {} refused", i + 1);
    }
    let out = submit(&mut store, request(NotificationType::Push, "r60"), "1.1.1.1");
    match out {
        Err(e) => {
            assert!(matches!(e, GatewayError::RateLimited));
            assert_eq!(e.http_status(), 429);
            assert_eq!(e.message(), "Rate limit exceeded");
        }
        other => panic!("unexpected outcome {:?}", other),
    }
    assert_eq!(store.published.len(), 60);
    // refused requests are counted too
    assert_eq!(store.counters.get("rate:1.1.1.1:create_notification"), Some(&61));
    // another client has a window of its own
    assert!(submit(&mut store, request(NotificationType::Push, "other"), "2.2.2.2").is_ok());
}

#[test]
fn publish_failure_is_a_gateway_error_and_leaves_key_reserved() {
    let mut store = FakeStore { fail_publish: true, ..FakeStore::default() };
    let out = submit(&mut store, request(NotificationType::Email, "pf"), "c");
    match out {
        Err(e) => {
            assert!(matches!(&e, GatewayError::Rabbit(m) if m == "channel closed"));
            assert_eq!(e.http_status(), 502);
            assert_eq!(e.message(), "RabbitMQ error: channel closed");
        }
        other => panic!("unexpected outcome {:?}", other),
    }
    assert_eq!(store.strings.get("idem:pf").map(|s| s.as_str()), Some(RESERVED_SENTINEL));
    assert!(store.hashes.is_empty());
    // a retry while the reservation is pinned is a duplicate in progress
    store.fail_publish = false;
    match submit(&mut store, request(NotificationType::Email, "pf"), "c") {
        Ok(Submission::Duplicate(v)) => assert_eq!(v, RESERVED_SENTINEL),
        other => panic!("unexpected outcome {:?}", other),
    }
    assert!(store.published.is_empty());
}

#[test]
fn store_failure_is_a_server_error() {
    let mut store = FakeStore { fail_store: true, ..FakeStore::default() };
    match submit(&mut store, request(NotificationType::Email, "sf"), "c") {
        Err(e) => {
            assert!(matches!(&e, GatewayError::Redis(m) if m == "connection refused"));
            assert_eq!(e.http_status(), 500);
            assert_eq!(e.message(), "Redis error: connection refused");
        }
        other => panic!("unexpected outcome {:?}", other),
    }
}

#[test]
fn concurrent_reservations_have_exactly_one_winner() {
    let mut store = FakeStore::default();
    let mut pipes = Vec::new();
    let mut actions = Vec::new();
    for i in 0..3 {
        let (p, a) = IngestionPipeline::start(
            request(NotificationType::Email, "same"),
            format!("client{}", i),
            "x".to_string(),
        );
        pipes.push(p);
        actions.push(a);
    }
    // round-robin: every caller performs one operation per round
    let mut outcomes: Vec<Option<Result<Submission, GatewayError>>> = vec![None, None, None];
    while outcomes.iter().any(|o| o.is_none()) {
        for i in 0..3 {
            if outcomes[i].is_some() {
                continue;
            }
            let a = std::mem::replace(&mut actions[i], Action::Exists { key: String::new() });
            if let Action::Respond { outcome } = a {
                outcomes[i] = Some(outcome);
                continue;
            }
            let reply = store.perform(&a);
            actions[i] = pipes[i].on_reply(reply);
        }
    }
    let enqueued: Vec<String> = outcomes
        .iter()
        .filter_map(|o| match o {
            Some(Ok(Submission::Enqueued(id))) => Some(id.clone()),
            _ => None,
        })
        .collect();
    assert_eq!(enqueued.len(), 1);
    let duplicates = outcomes
        .iter()
        .filter(|o| matches!(o, Some(Ok(Submission::Duplicate(_)))))
        .count();
    assert_eq!(duplicates, 2);
    assert_eq!(store.published.len(), 1);
}

#[test]
fn reply_that_does_not_answer_the_operation_is_a_store_error() {
    let (mut p, _a) = IngestionPipeline::start(
        request(NotificationType::Email, "u"),
        "c".to_string(),
        "x".to_string(),
    );
    match p.on_reply(Reply::Flag(true)) {
        Action::Respond { outcome: Err(GatewayError::Redis(m)) } => assert_eq!(m, UNEXPECTED_REPLY),
        other => panic!("unexpected action {:?}", other),
    }
    assert_eq!(p.stage, Stage::Finished);
}

#[test]
fn first_request_opens_window_with_expiry() {
    let (mut p, a) = IngestionPipeline::start(
        request(NotificationType::Email, "w"),
        "9.9.9.9".to_string(),
        "x".to_string(),
    );
    match a {
        Action::Incr { key } => assert_eq!(key, "rate:9.9.9.9:create_notification"),
        other => panic!("unexpected action {:?}", other),
    }
    match p.on_reply(Reply::Count(1)) {
        Action::Expire { key, secs } => {
            assert_eq!(key, "rate:9.9.9.9:create_notification");
            assert_eq!(secs, 60);
        }
        other => panic!("unexpected action {:?}", other),
    }
    match p.on_reply(Reply::Done) {
        Action::Exists { key } => assert_eq!(key, "idem:w"),
        other => panic!("unexpected action {:?}", other),
    }
    match p.on_reply(Reply::Flag(false)) {
        Action::SetNx { key, value, secs } => {
            assert_eq!(key, "idem:w");
            assert_eq!(value, "__reserved__");
            assert_eq!(secs, 86400);
        }
        other => panic!("unexpected action {:?}", other),
    }
    match p.on_reply(Reply::Flag(true)) {
        Action::Publish { publication } => {
            assert!(publication.persistent);
            assert_eq!(publication.routing_key, "email");
            let env = &publication.envelope;
            assert_eq!(env.notification_id, p.notification_id);
            assert_eq!(env.request_id, "w");
            assert_eq!(env.template_code, "welcome");
            assert_eq!(env.user_id, "6f1c2a0e-8a1b-4f7e-9d43-2b1f0c9a7e55");
            assert_eq!(env.variables.name, "Ada");
            assert_eq!(env.metadata.as_deref(), Some("{\"campaign\":\"spring\"}"));
            assert_eq!(env.priority, 1);
            assert!(env.enqueued_at.len() >= 25);
            assert!(env.enqueued_at.ends_with("+00:00"));
            assert_eq!(env.enqueued_at.chars().nth(10), Some('T'));
        }
        other => panic!("unexpected action {:?}", other),
    }
}

#[test]
fn duplicate_ids_are_distinct_across_requests() {
    let mut store = FakeStore::default();
    let mut ids = HashSet::new();
    for i in 0..5 {
        match submit(&mut store, request(NotificationType::Push, &format!("d{}", i)), "c") {
            Ok(Submission::Enqueued(id)) => assert!(ids.insert(id)),
            other => panic!("unexpected outcome {:?}", other),
        }
    }
}
