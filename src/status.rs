use vstd::prelude::*;
use vstd::string::StringExecFns;
use crate::keys::{notif_key, spec_notif_key, STATUS_TTL_SECS};
use crate::types::NotificationStatus;

verus! {

/// Text of an RFC 3339 timestamp in UTC: at least 25 characters, ending in
/// the offset `+00:00`.
pub open spec fn utc_timestamp_text(s: Seq<char>) -> bool {
    s.len() >= 25 && s.subrange(s.len() - 6, s.len() as int) == "+00:00"@
}

/// Relies on chrono's `From<SystemTime> for DateTime<Utc>` and
/// `DateTime::to_rfc3339`: the system clock as RFC 3339 text in UTC. A clock
/// before 1970 converts without failing; the conversion fails only beyond
/// chrono's range of about 262,000 years either side of year 0, which no
/// settable system clock reaches. The text is a date of at least four year
/// digits, `T`, the time, and the offset `+00:00`; nothing is promised of the
/// instant itself.
#[verifier::external_body]
pub(crate) fn now_rfc3339() -> (r: String)
    ensures
        utc_timestamp_text(r@),
{
    chrono::DateTime::<chrono::Utc>::from(std::time::SystemTime::now()).to_rfc3339()
}

/// The fields written into a status record, in order. Status, time and error
/// are replaced together: the error field is written when one is given.
pub open spec fn spec_status_fields(
    status: NotificationStatus,
    updated_at: Seq<char>,
    error: Option<Seq<char>>,
) -> Seq<(Seq<char>, Seq<char>)> {
    let base = seq![("status"@, status.spec_str()), ("updated_at"@, updated_at)];
    match error {
        Some(e) => base.push(("error"@, e)),
        None => base,
    }
}

/// The fields removed from a status record: the error field when no error is
/// given, so that no earlier error text outlives the write.
pub open spec fn spec_status_removed(error: Option<Seq<char>>) -> Seq<Seq<char>> {
    match error {
        Some(_) => Seq::empty(),
        None => seq!["error"@],
    }
}

pub open spec fn names_view(ns: Seq<String>) -> Seq<Seq<char>> {
    ns.map_values(|n: String| n@)
}

pub open spec fn fields_view(fs: Seq<(String, String)>) -> Seq<(Seq<char>, Seq<char>)> {
    fs.map_values(|p: (String, String)| (p.0@, p.1@))
}

pub open spec fn opt_view(e: Option<&str>) -> Option<Seq<char>> {
    match e {
        Some(s) => Some(s@),
        None => None,
    }
}

/// One last-write-wins update of a status record: set these hash fields
/// under `key`, delete the `removed` ones, then let the record expire after
/// `ttl_secs`.
#[derive(Debug)]
pub struct StatusWrite {
    pub key: String,
    pub fields: Vec<(String, String)>,
    pub removed: Vec<String>,
    pub ttl_secs: u64,
}

impl StatusWrite {
    pub open spec fn describes(
        &self,
        notification_id: Seq<char>,
        status: NotificationStatus,
        updated_at: Seq<char>,
        error: Option<Seq<char>>,
    ) -> bool {
        &&& self.key@ == spec_notif_key(notification_id)
        &&& fields_view(self.fields@) == spec_status_fields(status, updated_at, error)
        &&& names_view(self.removed@) == spec_status_removed(error)
        &&& self.ttl_secs == STATUS_TTL_SECS
    }
}

/// The write that records `status` for a notification at the instant `updated_at`.
pub fn status_write(
    notification_id: &str,
    status: NotificationStatus,
    error: Option<&str>,
    updated_at: &str,
) -> (r: StatusWrite)
    ensures
        r.describes(notification_id@, status, updated_at@, opt_view(error)),
{
    let mut fields: Vec<(String, String)> = Vec::new();
    let mut removed: Vec<String> = Vec::new();
    fields.push((String::from_str("status"), String::from_str(status.as_str())));
    fields.push((String::from_str("updated_at"), String::from_str(updated_at)));
    match error {
        Some(e) => {
            fields.push((String::from_str("error"), String::from_str(e)));
        },
        None => {
            removed.push(String::from_str("error"));
        },
    }
    let r = StatusWrite { key: notif_key(notification_id), fields, removed, ttl_secs: STATUS_TTL_SECS };
    assert(fields_view(r.fields@) =~= spec_status_fields(status, updated_at@, opt_view(error)));
    assert(names_view(r.removed@) =~= spec_status_removed(opt_view(error)));
    r
}

/// The write that records `status` for a notification now.
pub fn set_status(notification_id: &str, status: NotificationStatus, error: Option<&str>) -> (r: StatusWrite)
    ensures
        exists|t: Seq<char>| utc_timestamp_text(t) && r.describes(notification_id@, status, t, opt_view(error)),
{
    let now = now_rfc3339();
    status_write(notification_id, status, error, now.as_str())
}

/// Hash records of the store, by key.
pub type HashStore = Map<Seq<char>, Map<Seq<char>, Seq<char>>>;

pub open spec fn set_fields(h: Map<Seq<char>, Seq<char>>, fs: Seq<(Seq<char>, Seq<char>)>) -> Map<Seq<char>, Seq<char>>
    decreases fs.len(),
{
    if fs.len() == 0 {
        h
    } else {
        set_fields(h, fs.drop_last()).insert(fs.last().0, fs.last().1)
    }
}

pub open spec fn remove_fields(h: Map<Seq<char>, Seq<char>>, ns: Seq<Seq<char>>) -> Map<Seq<char>, Seq<char>>
    decreases ns.len(),
{
    if ns.len() == 0 {
        h
    } else {
        remove_fields(h, ns.drop_last()).remove(ns.last())
    }
}

/// The store after a status write, within the record's retention.
pub open spec fn apply_status_write(
    store: HashStore,
    key: Seq<char>,
    fs: Seq<(Seq<char>, Seq<char>)>,
    removed: Seq<Seq<char>>,
) -> HashStore {
    let h = if store.contains_key(key) { store[key] } else { Map::empty() };
    store.insert(key, remove_fields(set_fields(h, fs), removed))
}

/// The error text that a query of the record finds.
pub open spec fn observed_error(store: HashStore, notification_id: Seq<char>) -> Option<Seq<char>> {
    let key = spec_notif_key(notification_id);
    if store.contains_key(key) && store[key].contains_key("error"@) {
        Some(store[key]["error"@])
    } else {
        None
    }
}

/// The status that a query of the record finds.
pub open spec fn observed_status(store: HashStore, notification_id: Seq<char>) -> Option<Seq<char>> {
    let key = spec_notif_key(notification_id);
    if store.contains_key(key) && store[key].contains_key("status"@) {
        Some(store[key]["status"@])
    } else {
        None
    }
}

/// The record after one status write, starting from the hash `h`.
pub open spec fn written(
    h: Map<Seq<char>, Seq<char>>,
    status: NotificationStatus,
    t: Seq<char>,
    e: Option<Seq<char>>,
) -> Map<Seq<char>, Seq<char>> {
    remove_fields(set_fields(h, spec_status_fields(status, t, e)), spec_status_removed(e))
}

proof fn lemma_written(
    h: Map<Seq<char>, Seq<char>>,
    status: NotificationStatus,
    t: Seq<char>,
    e: Option<Seq<char>>,
)
    ensures
        written(h, status, t, e).contains_key("status"@),
        written(h, status, t, e)["status"@] == status.spec_str(),
        written(h, status, t, e).contains_key("error"@) <==> e is Some,
        e is Some ==> written(h, status, t, e)["error"@] == e->Some_0,
{
    reveal_strlit("status");
    reveal_strlit("updated_at");
    reveal_strlit("error");
    reveal_with_fuel(set_fields, 4);
    reveal_with_fuel(remove_fields, 2);
    let fs = spec_status_fields(status, t, e);
    assert("status"@ != "updated_at"@ && "status"@ != "error"@ && "updated_at"@ != "error"@) by {
        assert("status"@[0] != "updated_at"@[0]);
        assert("status"@[0] != "error"@[0]);
        assert("updated_at"@[0] != "error"@[0]);
    }
    let base = seq![("status"@, status.spec_str()), ("updated_at"@, t)];
    assert(base.drop_last().drop_last() =~= Seq::<(Seq<char>, Seq<char>)>::empty());
    if e is Some {
        assert(fs.drop_last() =~= base);
        assert(spec_status_removed(e) =~= Seq::<Seq<char>>::empty());
    } else {
        let rs = spec_status_removed(e);
        assert(rs.drop_last() =~= Seq::<Seq<char>>::empty());
    }
}

/// Status round trip: a query after a write observes the written status and
/// error text (none when the write gave none), and a later write replaces
/// both (last write wins on status, time and error).
pub proof fn lemma_status_last_write_wins(
    store: HashStore,
    notification_id: Seq<char>,
    first: NotificationStatus,
    t1: Seq<char>,
    e1: Option<Seq<char>>,
    second: NotificationStatus,
    t2: Seq<char>,
    e2: Option<Seq<char>>,
)
    ensures
        ({
            let key = spec_notif_key(notification_id);
            let s1 = apply_status_write(store, key, spec_status_fields(first, t1, e1), spec_status_removed(e1));
            let s2 = apply_status_write(s1, key, spec_status_fields(second, t2, e2), spec_status_removed(e2));
            &&& observed_status(s1, notification_id) == Some(first.spec_str())
            &&& observed_error(s1, notification_id) == e1
            &&& observed_status(s2, notification_id) == Some(second.spec_str())
            &&& observed_error(s2, notification_id) == e2
        }),
{
    let key = spec_notif_key(notification_id);
    let h0 = if store.contains_key(key) { store[key] } else { Map::empty() };
    lemma_written(h0, first, t1, e1);
    let s1 = apply_status_write(store, key, spec_status_fields(first, t1, e1), spec_status_removed(e1));
    lemma_written(s1[key], second, t2, e2);
}

} // verus!
