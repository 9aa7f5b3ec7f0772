use vstd::prelude::*;
use vstd::string::StringExecFns;

verus! {

/// Delivery channel of a notification.
#[derive(Clone, Copy, Debug, PartialEq, Eq, Structural)]
pub enum NotificationType {
    Email,
    Push,
}

/// Last-known delivery status of a notification.
#[derive(Clone, Copy, Debug, PartialEq, Eq, Structural)]
pub enum NotificationStatus {
    Delivered,
    Pending,
    Failed,
}

impl NotificationStatus {
    /// The text under which a status is stored.
    pub open spec fn spec_str(self) -> Seq<char> {
        match self {
            NotificationStatus::Delivered => "delivered"@,
            NotificationStatus::Pending => "pending"@,
            NotificationStatus::Failed => "failed"@,
        }
    }

    pub fn as_str(&self) -> (r: &'static str)
        ensures
            r@ == self.spec_str(),
    {
        match self {
            NotificationStatus::Delivered => "delivered",
            NotificationStatus::Pending => "pending",
            NotificationStatus::Failed => "failed",
        }
    }
}

/// Paging information attached to list responses.
#[derive(Debug)]
pub struct PaginationMeta {
    pub total: u64,
    pub limit: u64,
    pub page: u64,
    pub total_pages: u64,
    pub has_next: bool,
    pub has_previous: bool,
}

impl Default for PaginationMeta {
    fn default() -> (r: PaginationMeta)
        ensures
            r.total == 0 && r.limit == 0 && r.page == 0 && r.total_pages == 0,
            !r.has_next && !r.has_previous,
    {
        PaginationMeta {
            total: 0,
            limit: 0,
            page: 0,
            total_pages: 0,
            has_next: false,
            has_previous: false,
        }
    }
}

/// Template variables of a notification. `meta` holds free-form JSON text.
#[derive(Debug)]
pub struct UserData {
    pub name: String,
    pub link: String,
    pub meta: Option<String>,
}

pub open spec fn same_text(a: Option<String>, b: Option<String>) -> bool {
    match (a, b) {
        (Some(x), Some(y)) => x@ == y@,
        (None, None) => true,
        _ => false,
    }
}

pub fn clone_text(t: &Option<String>) -> (r: Option<String>)
    ensures
        same_text(r, *t),
{
    match t {
        Some(s) => Some(s.clone()),
        None => None,
    }
}

impl UserData {
    pub open spec fn same_as(self, o: UserData) -> bool {
        self.name@ == o.name@ && self.link@ == o.link@ && same_text(self.meta, o.meta)
    }

    pub fn duplicate(&self) -> (r: UserData)
        ensures
            r.same_as(*self),
    {
        UserData { name: self.name.clone(), link: self.link.clone(), meta: clone_text(&self.meta) }
    }
}

/// Failures of the ingestion path, each mapped to one HTTP status.
#[derive(Debug)]
pub enum GatewayError {
    RateLimited,
    AlreadyProcessed,
    Redis(String),
    Rabbit(String),
    Upstream(String),
}

impl GatewayError {
    pub open spec fn spec_http_status(&self) -> u16 {
        match self {
            GatewayError::RateLimited => 429,
            GatewayError::AlreadyProcessed => 200,
            GatewayError::Redis(_) => 500,
            GatewayError::Rabbit(_) => 502,
            GatewayError::Upstream(_) => 502,
        }
    }

    pub open spec fn spec_message(&self) -> Seq<char> {
        match self {
            GatewayError::RateLimited => "Rate limit exceeded"@,
            GatewayError::AlreadyProcessed => "Idempotency key exists"@,
            GatewayError::Redis(e) => "Redis error: "@ + e@,
            GatewayError::Rabbit(e) => "RabbitMQ error: "@ + e@,
            GatewayError::Upstream(e) => "Upstream error: "@ + e@,
        }
    }

    /// HTTP status code reported to the caller for this failure.
    pub fn http_status(&self) -> (r: u16)
        ensures
            r == self.spec_http_status(),
    {
        match self {
            GatewayError::RateLimited => 429,
            GatewayError::AlreadyProcessed => 200,
            GatewayError::Redis(_) => 500,
            GatewayError::Rabbit(_) => 502,
            GatewayError::Upstream(_) => 502,
        }
    }

    /// Human-readable description of the failure.
    pub fn message(&self) -> (r: String)
        ensures
            r@ == self.spec_message(),
    {
        match self {
            GatewayError::RateLimited => String::from_str("Rate limit exceeded"),
            GatewayError::AlreadyProcessed => String::from_str("Idempotency key exists"),
            GatewayError::Redis(e) => String::from_str("Redis error: ").concat(e.as_str()),
            GatewayError::Rabbit(e) => String::from_str("RabbitMQ error: ").concat(e.as_str()),
            GatewayError::Upstream(e) => String::from_str("Upstream error: ").concat(e.as_str()),
        }
    }
}

} // verus!
