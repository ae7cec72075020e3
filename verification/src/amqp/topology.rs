//! The exchanges, queues and bindings that the consumer declares before
//! it consumes, in the order in which it declares them.

use crate::domain::categories::model::text_view;
use vstd::prelude::*;

verus! {

/// One thing to declare at the broker. Every exchange routes directly.
#[derive(Debug)]
pub enum Declaration {
    /// An exchange.
    Exchange { name: String, durable: bool },
    /// A queue; what it refuses or drops goes to `dead_letter_exchange`.
    Queue { name: String, durable: bool, dead_letter_exchange: Option<String> },
    /// A binding of `queue` to `exchange` under `routing_key`.
    Binding { queue: String, exchange: String, routing_key: String },
}

/// Mathematical value of a [`Declaration`].
pub enum DeclarationView {
    Exchange { name: Seq<char>, durable: bool },
    Queue { name: Seq<char>, durable: bool, dead_letter_exchange: Option<Seq<char>> },
    Binding { queue: Seq<char>, exchange: Seq<char>, routing_key: Seq<char> },
}

impl View for Declaration {
    type V = DeclarationView;

    open spec fn view(&self) -> DeclarationView {
        match self {
            Declaration::Exchange { name, durable } => DeclarationView::Exchange {
                name: name@,
                durable: *durable,
            },
            Declaration::Queue { name, durable, dead_letter_exchange } => DeclarationView::Queue {
                name: name@,
                durable: *durable,
                dead_letter_exchange: text_view(*dead_letter_exchange),
            },
            Declaration::Binding { queue, exchange, routing_key } => DeclarationView::Binding {
                queue: queue@,
                exchange: exchange@,
                routing_key: routing_key@,
            },
        }
    }
}

impl DeepView for Declaration {
    type V = DeclarationView;

    open spec fn deep_view(&self) -> DeclarationView {
        self@
    }
}

/// Name of the exchange that messages for categories are published to.
pub open spec fn categories_exchange() -> Seq<char> {
    "categories.exchange"@
}

/// Name of the queue that the consumer reads.
pub open spec fn categories_queue() -> Seq<char> {
    "categories.queue"@
}

/// Name of the exchange that takes what the categories queue gives up.
pub open spec fn dead_letter_exchange() -> Seq<char> {
    "categories-dead-letter.exchange"@
}

/// Name of the queue that keeps what the categories queue gave up.
pub open spec fn dead_letter_queue() -> Seq<char> {
    "categories-dead-letter.queue"@
}

/// The declarations, in order: the dead-letter exchange, its durable queue
/// and their binding, then the durable categories exchange, the durable
/// categories queue that dead-letters to the first exchange, and their
/// binding. Every binding has the empty routing key.
pub open spec fn topology_plan() -> Seq<DeclarationView> {
    seq![
        DeclarationView::Exchange { name: dead_letter_exchange(), durable: false },
        DeclarationView::Queue {
            name: dead_letter_queue(),
            durable: true,
            dead_letter_exchange: None,
        },
        DeclarationView::Binding {
            queue: dead_letter_queue(),
            exchange: dead_letter_exchange(),
            routing_key: ""@,
        },
        DeclarationView::Exchange { name: categories_exchange(), durable: true },
        DeclarationView::Queue {
            name: categories_queue(),
            durable: true,
            dead_letter_exchange: Some(dead_letter_exchange()),
        },
        DeclarationView::Binding {
            queue: categories_queue(),
            exchange: categories_exchange(),
            routing_key: ""@,
        },
    ]
}

/// Whether one of the first `upto` declarations is an exchange `name`.
pub open spec fn declares_exchange(plan: Seq<DeclarationView>, upto: int, name: Seq<char>) -> bool {
    exists|at: int|
        {
            &&& 0 <= at < upto
            &&& at < plan.len()
            &&& (#[trigger] plan[at]) matches DeclarationView::Exchange { name: declared, .. }
            &&& declared == name
        }
}

/// Whether one of the first `upto` declarations is a queue `name`.
pub open spec fn declares_queue(plan: Seq<DeclarationView>, upto: int, name: Seq<char>) -> bool {
    exists|at: int|
        {
            &&& 0 <= at < upto
            &&& at < plan.len()
            &&& (#[trigger] plan[at]) matches DeclarationView::Queue { name: declared, .. }
            &&& declared == name
        }
}

/// Whether the declaration at `at` names only what was declared before it.
pub open spec fn is_grounded(plan: Seq<DeclarationView>, at: int) -> bool {
    match plan[at] {
        DeclarationView::Exchange { .. } => true,
        DeclarationView::Queue { dead_letter_exchange, .. } => dead_letter_exchange matches Some(
            target,
        ) ==> declares_exchange(plan, at, target),
        DeclarationView::Binding { queue, exchange, .. } => declares_queue(plan, at, queue)
            && declares_exchange(plan, at, exchange),
    }
}

/// Whether a plan can be declared in its order: nothing names a queue or
/// an exchange that is not declared yet.
pub open spec fn is_well_ordered(plan: Seq<DeclarationView>) -> bool {
    forall|at: int| 0 <= at < plan.len() ==> #[trigger] is_grounded(plan, at)
}

/// The plan can be declared in its order, and what the categories queue
/// gives up ends in a durable queue.
pub proof fn lemma_topology_is_well_ordered()
    ensures
        is_well_ordered(topology_plan()),
        topology_plan()[4] == (DeclarationView::Queue {
            name: categories_queue(),
            durable: true,
            dead_letter_exchange: Some(dead_letter_exchange()),
        }),
        declares_exchange(topology_plan(), 4, dead_letter_exchange()),
        topology_plan()[2] == (DeclarationView::Binding {
            queue: dead_letter_queue(),
            exchange: dead_letter_exchange(),
            routing_key: ""@,
        }),
        topology_plan()[1] == (DeclarationView::Queue {
            name: dead_letter_queue(),
            durable: true,
            dead_letter_exchange: None,
        }),
{
    let plan = topology_plan();
    assert(plan[0] is Exchange);
    assert(plan[1] is Queue);
    assert(plan[3] is Exchange);
    assert(plan[4] is Queue);
    assert(declares_exchange(plan, 2, dead_letter_exchange()));
    assert(declares_queue(plan, 2, dead_letter_queue()));
    assert(declares_exchange(plan, 4, dead_letter_exchange()));
    assert(declares_exchange(plan, 5, categories_exchange()));
    assert(declares_queue(plan, 5, categories_queue()));
    assert forall|at: int| 0 <= at < plan.len() implies #[trigger] is_grounded(plan, at) by {
        if at == 2 {
            assert(is_grounded(plan, 2));
        } else if at == 4 {
            assert(is_grounded(plan, 4));
        } else if at == 5 {
            assert(is_grounded(plan, 5));
        }
    }
}

/// The declarations that the consumer makes, see [`topology_plan`].
pub fn topology() -> (plan: Vec<Declaration>)
    ensures
        plan.deep_view() == topology_plan(),
{
    let mut plan: Vec<Declaration> = Vec::new();
    plan.push(
        Declaration::Exchange { name: "categories-dead-letter.exchange".to_owned(), durable: false },
    );
    plan.push(
        Declaration::Queue {
            name: "categories-dead-letter.queue".to_owned(),
            durable: true,
            dead_letter_exchange: None,
        },
    );
    plan.push(
        Declaration::Binding {
            queue: "categories-dead-letter.queue".to_owned(),
            exchange: "categories-dead-letter.exchange".to_owned(),
            routing_key: "".to_owned(),
        },
    );
    plan.push(Declaration::Exchange { name: "categories.exchange".to_owned(), durable: true });
    plan.push(
        Declaration::Queue {
            name: "categories.queue".to_owned(),
            durable: true,
            dead_letter_exchange: Some("categories-dead-letter.exchange".to_owned()),
        },
    );
    plan.push(
        Declaration::Binding {
            queue: "categories.queue".to_owned(),
            exchange: "categories.exchange".to_owned(),
            routing_key: "".to_owned(),
        },
    );
    assert(plan.deep_view() =~= topology_plan());
    plan
}

} // verus!
