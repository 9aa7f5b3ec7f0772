use vstd::prelude::*;
use vstd::string::StringExecFns;

verus! {

/// Value that marks an idempotency key as claimed while its request is in flight.
pub const RESERVED_SENTINEL: &'static str = "__reserved__";

/// How long an idempotency record lives, in seconds (one day).
pub const IDEMPOTENCY_TTL_SECS: u64 = 86400;

/// How long a status record lives, in seconds (seven days).
pub const STATUS_TTL_SECS: u64 = 604800;

pub open spec fn spec_rate_key(client: Seq<char>, route: Seq<char>) -> Seq<char> {
    "rate:"@ + client + ":"@ + route
}

pub open spec fn spec_idem_key(request_id: Seq<char>) -> Seq<char> {
    "idem:"@ + request_id
}

pub open spec fn spec_notif_key(notification_id: Seq<char>) -> Seq<char> {
    "notif:"@ + notification_id
}

/// Key of the fixed-window counter of one client on one route.
pub fn rate_key(client: &str, route: &str) -> (r: String)
    ensures
        r@ == spec_rate_key(client@, route@),
{
    String::from_str("rate:").concat(client).concat(":").concat(route)
}

/// Key of the idempotency record of one request id.
pub fn idem_key(request_id: &str) -> (r: String)
    ensures
        r@ == spec_idem_key(request_id@),
{
    String::from_str("idem:").concat(request_id)
}

/// Key of the status record of one notification.
pub fn notif_key(notification_id: &str) -> (r: String)
    ensures
        r@ == spec_notif_key(notification_id@),
{
    String::from_str("notif:").concat(notification_id)
}

} // verus!
