use vstd::prelude::*;
use vstd::string::StringExecFns;
use crate::types::NotificationType;

verus! {

/// Name of the direct exchange when none is configured.
pub const DEFAULT_EXCHANGE: &'static str = "notifications.direct";

/// Content type marked on every published body.
pub const CONTENT_TYPE: &'static str = "application/json";

pub open spec fn spec_routing_key(t: NotificationType) -> Seq<char> {
    match t {
        NotificationType::Email => "email"@,
        NotificationType::Push => "push"@,
    }
}

/// The queue that a notification type is meant to reach.
pub open spec fn spec_queue_of(t: NotificationType) -> Seq<char> {
    match t {
        NotificationType::Email => "email.queue"@,
        NotificationType::Push => "push.queue"@,
    }
}

/// Routing key under which a notification of the given type is published.
pub fn routing_key(t: &NotificationType) -> (r: &'static str)
    ensures
        r@ == spec_routing_key(*t),
{
    match t {
        NotificationType::Email => "email",
        NotificationType::Push => "push",
    }
}

/// How an exchange routes: a direct exchange delivers to the queues bound
/// with exactly the message's routing key.
#[derive(Clone, Copy, Debug, PartialEq, Eq, Structural)]
pub enum ExchangeType {
    Direct,
}

/// One step of declaring the broker topology. A durable object survives a
/// broker restart.
#[derive(Debug)]
pub enum Declaration {
    Exchange { name: String, kind: ExchangeType, durable: bool },
    Queue { name: String, durable: bool },
    Bind { queue: String, exchange: String, routing_key: String },
}

/// A declaration by the names and parameters it carries.
pub enum DeclarationView {
    Exchange(Seq<char>, ExchangeType, bool),
    Queue(Seq<char>, bool),
    Bind(Seq<char>, Seq<char>, Seq<char>),
}

impl Declaration {
    pub open spec fn spec_view(self) -> DeclarationView {
        match self {
            Declaration::Exchange { name, kind, durable } => DeclarationView::Exchange(name@, kind, durable),
            Declaration::Queue { name, durable } => DeclarationView::Queue(name@, durable),
            Declaration::Bind { queue, exchange, routing_key } => DeclarationView::Bind(
                queue@,
                exchange@,
                routing_key@,
            ),
        }
    }
}

/// The topology: the durable direct exchange, then each durable queue
/// followed by its binding.
pub open spec fn spec_topology(exchange: Seq<char>) -> Seq<DeclarationView> {
    seq![
        DeclarationView::Exchange(exchange, ExchangeType::Direct, true),
        DeclarationView::Queue("email.queue"@, true),
        DeclarationView::Bind("email.queue"@, exchange, "email"@),
        DeclarationView::Queue("push.queue"@, true),
        DeclarationView::Bind("push.queue"@, exchange, "push"@),
        DeclarationView::Queue("failed.queue"@, true),
        DeclarationView::Bind("failed.queue"@, exchange, "failed"@),
    ]
}

fn queue_and_binding(out: &mut Vec<Declaration>, queue: &str, exchange: &str, key: &str)
    ensures
        final(out)@.len() == old(out)@.len() + 2,
        forall|i: int| 0 <= i < old(out)@.len() ==> final(out)@[i] == old(out)@[i],
        final(out)@[old(out)@.len() as int].spec_view() == DeclarationView::Queue(queue@, true),
        final(out)@[old(out)@.len() as int + 1].spec_view() == DeclarationView::Bind(queue@, exchange@, key@),
{
    out.push(Declaration::Queue { name: String::from_str(queue), durable: true });
    out.push(
        Declaration::Bind {
            queue: String::from_str(queue),
            exchange: String::from_str(exchange),
            routing_key: String::from_str(key),
        },
    );
}

/// Declarations that set up the durable direct exchange and the durable
/// `email`, `push` and `failed` queues, each bound by its own name.
pub fn topology(exchange: &str) -> (r: Vec<Declaration>)
    ensures
        r@.len() == spec_topology(exchange@).len(),
        forall|i: int| 0 <= i < r@.len() ==> #[trigger] r@[i].spec_view() == spec_topology(exchange@)[i],
{
    let mut out: Vec<Declaration> = Vec::new();
    out.push(
        Declaration::Exchange { name: String::from_str(exchange), kind: ExchangeType::Direct, durable: true },
    );
    queue_and_binding(&mut out, "email.queue", exchange, "email");
    queue_and_binding(&mut out, "push.queue", exchange, "push");
    queue_and_binding(&mut out, "failed.queue", exchange, "failed");
    out
}

/// What a broker holds after declarations: exchanges as (name, type,
/// durable), queues as (name, durable), and bindings as (queue, exchange,
/// routing key).
pub struct Broker {
    pub exchanges: Set<(Seq<char>, ExchangeType, bool)>,
    pub queues: Set<(Seq<char>, bool)>,
    pub bindings: Set<(Seq<char>, Seq<char>, Seq<char>)>,
}

pub open spec fn empty_broker() -> Broker {
    Broker { exchanges: Set::empty(), queues: Set::empty(), bindings: Set::empty() }
}

/// Declaring an object that already exists with the same parameters leaves it as it is.
pub open spec fn declare(b: Broker, d: DeclarationView) -> Broker {
    match d {
        DeclarationView::Exchange(x, k, d) => Broker { exchanges: b.exchanges.insert((x, k, d)), ..b },
        DeclarationView::Queue(q, d) => Broker { queues: b.queues.insert((q, d)), ..b },
        DeclarationView::Bind(q, x, k) => Broker { bindings: b.bindings.insert((q, x, k)), ..b },
    }
}

pub open spec fn declare_all(b: Broker, ds: Seq<DeclarationView>) -> Broker
    decreases ds.len(),
{
    if ds.len() == 0 {
        b
    } else {
        declare(declare_all(b, ds.drop_last()), ds.last())
    }
}

pub open spec fn holds(b: Broker, d: DeclarationView) -> bool {
    match d {
        DeclarationView::Exchange(x, k, d) => b.exchanges.contains((x, k, d)),
        DeclarationView::Queue(q, d) => b.queues.contains((q, d)),
        DeclarationView::Bind(q, x, k) => b.bindings.contains((q, x, k)),
    }
}

/// Queues that receive a message published to `exchange` with routing key `key`.
pub open spec fn routed(b: Broker, exchange: Seq<char>, key: Seq<char>) -> Set<Seq<char>> {
    Set::new(|q: Seq<char>| b.bindings.contains((q, exchange, key)))
}

proof fn lemma_declare_all_holds(b: Broker, ds: Seq<DeclarationView>)
    ensures
        forall|i: int| 0 <= i < ds.len() ==> holds(declare_all(b, ds), #[trigger] ds[i]),
        forall|d: DeclarationView| holds(b, d) ==> holds(declare_all(b, ds), d),
    decreases ds.len(),
{
    if ds.len() > 0 {
        lemma_declare_all_holds(b, ds.drop_last());
        assert forall|i: int| 0 <= i < ds.len() implies holds(declare_all(b, ds), #[trigger] ds[i]) by {
            if i < ds.len() - 1 {
                assert(ds[i] == ds.drop_last()[i]);
            }
        }
    }
}

proof fn lemma_declare_all_noop(b: Broker, ds: Seq<DeclarationView>)
    requires
        forall|i: int| 0 <= i < ds.len() ==> holds(b, #[trigger] ds[i]),
    ensures
        declare_all(b, ds) == b,
    decreases ds.len(),
{
    if ds.len() > 0 {
        assert forall|i: int| 0 <= i < ds.drop_last().len() implies holds(b, #[trigger] ds.drop_last()[i]) by {
            assert(ds.drop_last()[i] == ds[i]);
        }
        lemma_declare_all_noop(b, ds.drop_last());
        assert(holds(b, ds[ds.len() - 1]));
        match ds.last() {
            DeclarationView::Exchange(x, k, d) => {
                assert(b.exchanges.insert((x, k, d)) =~= b.exchanges);
            },
            DeclarationView::Queue(q, d) => {
                assert(b.queues.insert((q, d)) =~= b.queues);
            },
            DeclarationView::Bind(q, x, k) => {
                assert(b.bindings.insert((q, x, k)) =~= b.bindings);
            },
        }
    }
}

/// Declaring the same topology a second time changes nothing: no object is
/// added twice and the broker ends as after the first declaration.
pub proof fn lemma_redeclare_topology(b: Broker, exchange: Seq<char>)
    ensures
        declare_all(declare_all(b, spec_topology(exchange)), spec_topology(exchange))
            == declare_all(b, spec_topology(exchange)),
{
    lemma_declare_all_holds(b, spec_topology(exchange));
    lemma_declare_all_noop(declare_all(b, spec_topology(exchange)), spec_topology(exchange));
}

/// On a broker freshly declared with the topology, a notification published
/// with its type's routing key reaches exactly that type's queue; an email
/// never reaches the push queue.
pub proof fn lemma_routing(exchange: Seq<char>, t: NotificationType)
    ensures
        routed(declare_all(empty_broker(), spec_topology(exchange)), exchange, spec_routing_key(t))
            == set![spec_queue_of(t)],
        t == NotificationType::Email ==> !routed(
            declare_all(empty_broker(), spec_topology(exchange)),
            exchange,
            spec_routing_key(t),
        ).contains("push.queue"@),
{
    reveal_strlit("email");
    reveal_strlit("push");
    reveal_strlit("failed");
    reveal_strlit("email.queue");
    reveal_strlit("push.queue");
    let ds = spec_topology(exchange);
    let b = declare_all(empty_broker(), ds);
    reveal_with_fuel(declare_all, 8);
    assert(ds.drop_last().drop_last().drop_last().drop_last().drop_last().drop_last().drop_last()
        =~= Seq::<DeclarationView>::empty());
    assert(b.bindings =~= set![
        ("email.queue"@, exchange, "email"@),
        ("push.queue"@, exchange, "push"@),
        ("failed.queue"@, exchange, "failed"@),
    ]);
    assert("email"@ != "push"@ && "email"@ != "failed"@ && "push"@ != "failed"@) by {
        assert("email"@[0] != "push"@[0]);
        assert("email"@.len() != "failed"@.len());
        assert("push"@[0] != "failed"@[0]);
    }
    assert("email.queue"@ != "push.queue"@) by {
        assert("email.queue"@[0] != "push.queue"@[0]);
    }
    assert(routed(b, exchange, spec_routing_key(t)) =~= set![spec_queue_of(t)]);
}

/// Declaring the topology on an empty broker yields one durable direct
/// exchange and the three durable queues.
pub proof fn lemma_topology_contents(exchange: Seq<char>)
    ensures
        declare_all(empty_broker(), spec_topology(exchange)).exchanges == set![
            (exchange, ExchangeType::Direct, true),
        ],
        declare_all(empty_broker(), spec_topology(exchange)).queues == set![
            ("email.queue"@, true),
            ("push.queue"@, true),
            ("failed.queue"@, true),
        ],
{
    reveal_with_fuel(declare_all, 8);
    let ds = spec_topology(exchange);
    assert(ds.drop_last().drop_last().drop_last().drop_last().drop_last().drop_last().drop_last()
        =~= Seq::<DeclarationView>::empty());
    let b = declare_all(empty_broker(), ds);
    assert(b.exchanges =~= set![(exchange, ExchangeType::Direct, true)]);
    assert(b.queues =~= set![("email.queue"@, true), ("push.queue"@, true), ("failed.queue"@, true)]);
}

} // verus!
