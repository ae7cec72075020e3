//! The consumer: what becomes of each delivered message.
//!
//! A message whose payload is no create-message is rejected for good: it
//! can never succeed. A message that could not be processed is handed back
//! to be tried again: the failure may pass. A processed message is
//! acknowledged.

use crate::amqp::dto::{CategoryMessage, CategoryMessageView};
use crate::domain::categories::model::{
    is_random_id, CategoryCreateModel, CategoryCreateView, CategoryModel, CategoryView,
};
use crate::domain::categories::repository::CategoryRepository;
use crate::domain::categories::table::{is_stored_form, row_by_id, rows_after_insert};
use crate::domain::error::DomainError;
use vstd::prelude::*;

verus! {

/// What the consumer tells the broker about a delivered message.
#[derive(Debug, Clone, Copy, PartialEq, Eq, Structural)]
pub enum Acknowledgement {
    /// The message was processed: remove it from the queue.
    Ack,
    /// The message was not processed; `requeue` says whether it may be
    /// delivered again.
    Nack { requeue: bool },
    /// The message is refused; `requeue` says whether it may be delivered
    /// again. A message that may not goes to the dead-letter queue.
    Reject { requeue: bool },
}

/// The answer to a message that can never be processed.
pub open spec fn rejected() -> Acknowledgement {
    Acknowledgement::Reject { requeue: false }
}

/// The answer to a message that may be processed at another time.
pub open spec fn try_again() -> Acknowledgement {
    Acknowledgement::Nack { requeue: true }
}

/// Whether the broker may deliver the message again after this answer.
pub open spec fn may_be_retried(acknowledgement: Acknowledgement) -> bool {
    match acknowledgement {
        Acknowledgement::Ack => false,
        Acknowledgement::Nack { requeue } => requeue,
        Acknowledgement::Reject { requeue } => requeue,
    }
}

/// What the consumer does next with a delivered message.
#[derive(Debug)]
pub enum Step {
    /// Run the create operation on this command, then settle its outcome.
    Create(CategoryCreateModel),
    /// Answer the broker: the message is done with.
    Settle(Acknowledgement),
}

/// Decides what to do with a delivered message from what its payload
/// decoded to, `None` standing for a payload that is no create-message.
///
/// An undecodable payload is rejected without retry. A decoded one becomes
/// a create command with the message's name and description under a fresh
/// random identifier.
pub fn receive(decoded: Option<CategoryMessage>) -> (step: Step)
    ensures
        match decoded {
            None => step matches Step::Settle(acknowledgement) && acknowledgement == rejected(),
            Some(message) => {
                &&& step matches Step::Create(command)
                &&& is_random_id(command.id)
                &&& command.name == message.name
                &&& command.description == message.description
            },
        },
{
    match decoded {
        None => Step::Settle(Acknowledgement::Reject { requeue: false }),
        Some(message) => Step::Create(CategoryCreateModel::from(message)),
    }
}

/// The answer to a message after the create operation ran on it.
pub open spec fn settlement(created: bool) -> Acknowledgement {
    if created {
        Acknowledgement::Ack
    } else {
        try_again()
    }
}

/// Decides the answer to a message from the outcome of the create
/// operation: acknowledged where it succeeded, handed back for another
/// try where it failed, whatever the failure.
pub fn settle(outcome: &Result<CategoryModel, DomainError>) -> (acknowledgement: Acknowledgement)
    ensures
        acknowledgement == settlement(outcome is Ok),
{
    match outcome {
        Ok(_) => Acknowledgement::Ack,
        Err(_) => Acknowledgement::Nack { requeue: true },
    }
}

/// Whether handling `delivery` on the table `before` may end with the
/// answer `acknowledgement` and the table `after`.
///
/// An undecodable payload is rejected and changes nothing. A decoded one
/// is either acknowledged, with exactly its category stored as the newest
/// row, or handed back with nothing stored.
pub open spec fn handled(
    before: Seq<CategoryView>,
    delivery: Option<CategoryMessageView>,
    acknowledgement: Acknowledgement,
    after: Seq<CategoryView>,
) -> bool {
    match delivery {
        None => acknowledgement == rejected() && after == before,
        Some(message) => {
            ||| {
                &&& acknowledgement == Acknowledgement::Ack
                &&& after.len() == before.len() + 1
                &&& after == rows_after_insert(before, after.last())
                &&& row_by_id(before, after.last().id) is None
                &&& is_random_id(after.last().id)
                &&& is_stored_form(
                    after.last(),
                    CategoryCreateView {
                        id: after.last().id,
                        name: message.name,
                        description: message.description,
                    },
                )
            }
            ||| acknowledgement == try_again() && after == before
        },
    }
}

/// Mathematical value of a decoded payload.
pub open spec fn delivery_view(decoded: Option<CategoryMessage>) -> Option<CategoryMessageView> {
    match decoded {
        Some(message) => Some(message@),
        None => None,
    }
}

/// Handles one delivered message from start to end: decides on its
/// payload, runs the create operation where there is a command, and
/// returns the answer for the broker, see [`handled`]. Storage is asked to
/// write once for a decoded payload and not at all for any other.
pub fn process<R: CategoryRepository>(
    category_repository: &mut R,
    decoded: Option<CategoryMessage>,
) -> (acknowledgement: Acknowledgement)
    ensures
        handled(
            old(category_repository).rows(),
            delivery_view(decoded),
            acknowledgement,
            final(category_repository).rows(),
        ),
        final(category_repository).writes() == old(category_repository).writes() + if decoded
            is Some {
            1nat
        } else {
            0nat
        },
{
    match receive(decoded) {
        Step::Settle(acknowledgement) => acknowledgement,
        Step::Create(command) => {
            let outcome = crate::domain::categories::resources::create::execute(
                category_repository,
                command,
            );
            settle(&outcome)
        },
    }
}

/// Whether handling `deliveries` one after the other, starting on the
/// table `before`, may end with the answers `acknowledgements` and the
/// table `after`: each message is handled on the table that the one
/// before it left.
pub open spec fn handled_in_order(
    before: Seq<CategoryView>,
    deliveries: Seq<Option<CategoryMessageView>>,
    acknowledgements: Seq<Acknowledgement>,
    after: Seq<CategoryView>,
) -> bool
    decreases deliveries.len(),
{
    if deliveries.len() == 0 {
        acknowledgements.len() == 0 && after == before
    } else {
        &&& acknowledgements.len() == deliveries.len()
        &&& exists|between: Seq<CategoryView>|
            {
                &&& handled_in_order(
                    before,
                    deliveries.drop_last(),
                    acknowledgements.drop_last(),
                    between,
                )
                &&& #[trigger] handled(
                    between,
                    deliveries.last(),
                    acknowledgements.last(),
                    after,
                )
            }
    }
}

/// Mathematical value of a batch of decoded payloads.
pub open spec fn deliveries_view(deliveries: Seq<Option<CategoryMessage>>) -> Seq<
    Option<CategoryMessageView>,
> {
    deliveries.map_values(|decoded: Option<CategoryMessage>| delivery_view(decoded))
}

/// Consumes the delivered messages in the order in which they came, each
/// one handled to its end before the next is looked at, and returns the
/// answer to each, see [`handled_in_order`].
pub fn run<R: CategoryRepository>(
    category_repository: &mut R,
    deliveries: &Vec<Option<CategoryMessage>>,
) -> (acknowledgements: Vec<Acknowledgement>)
    ensures
        acknowledgements.len() == deliveries.len(),
        handled_in_order(
            old(category_repository).rows(),
            deliveries_view(deliveries@),
            acknowledgements@,
            final(category_repository).rows(),
        ),
{
    let mut acknowledgements: Vec<Acknowledgement> = Vec::new();
    let mut at: usize = 0;
    let ghost start = category_repository.rows();
    let ghost all = deliveries_view(deliveries@);
    assert(all.take(0) =~= Seq::<Option<CategoryMessageView>>::empty());
    while at < deliveries.len()
        invariant
            at <= deliveries.len(),
            acknowledgements.len() == at,
            all == deliveries_view(deliveries@),
            handled_in_order(
                start,
                all.take(at as int),
                acknowledgements@,
                category_repository.rows(),
            ),
        decreases deliveries.len() - at,
    {
        let ghost between = category_repository.rows();
        let ghost answered = acknowledgements@;
        let decoded: Option<CategoryMessage> = match &deliveries[at] {
            Some(message) => Some(message.clone()),
            None => None,
        };
        assert(delivery_view(decoded) == all[at as int]);
        let acknowledgement = process(category_repository, decoded);
        acknowledgements.push(acknowledgement);
        proof {
            let seen = all.take(at + 1);
            assert(seen.drop_last() =~= all.take(at as int));
            assert(acknowledgements@.drop_last() =~= answered);
            assert(handled(
                between,
                seen.last(),
                acknowledgements@.last(),
                category_repository.rows(),
            ));
        }
        at += 1;
    }
    assert(all.take(at as int) =~= all);
    acknowledgements
}

/// A payload that is no create-message is rejected, never handed back: 
/// the broker will not deliver it again, and nothing was stored for it.
pub proof fn lemma_undecodable_is_never_retried(
    before: Seq<CategoryView>,
    acknowledgement: Acknowledgement,
    after: Seq<CategoryView>,
)
    requires
        handled(before, None, acknowledgement, after),
    ensures
        acknowledgement is Reject,
        !may_be_retried(acknowledgement),
        after == before,
{
}

/// A decoded message is never rejected: it is acknowledged once its
/// category is stored, and may be delivered again exactly where nothing
/// was stored for it.
pub proof fn lemma_decoded_is_stored_or_retried(
    before: Seq<CategoryView>,
    message: CategoryMessageView,
    acknowledgement: Acknowledgement,
    after: Seq<CategoryView>,
)
    requires
        handled(before, Some(message), acknowledgement, after),
    ensures
        !(acknowledgement is Reject),
        may_be_retried(acknowledgement) <==> after == before,
        !may_be_retried(acknowledgement) <==> acknowledgement == Acknowledgement::Ack,
{
}

/// In a batch, exactly the payloads that are no create-message are
/// rejected; every other message is acknowledged or handed back. The
/// table only grows, by one row for each acknowledged message.
pub proof fn lemma_answers_follow_payloads(
    before: Seq<CategoryView>,
    deliveries: Seq<Option<CategoryMessageView>>,
    acknowledgements: Seq<Acknowledgement>,
    after: Seq<CategoryView>,
    at: int,
)
    requires
        handled_in_order(before, deliveries, acknowledgements, after),
        0 <= at < deliveries.len(),
    ensures
        acknowledgements.len() == deliveries.len(),
        deliveries[at] is None <==> acknowledgements[at] == rejected(),
        deliveries[at] is Some ==> acknowledgements[at] == Acknowledgement::Ack
            || acknowledgements[at] == try_again(),
        before.len() <= after.len() <= before.len() + deliveries.len(),
    decreases deliveries.len(),
{
    let between = choose|between: Seq<CategoryView>|
        {
            &&& handled_in_order(
                before,
                deliveries.drop_last(),
                acknowledgements.drop_last(),
                between,
            )
            &&& #[trigger] handled(
                between,
                deliveries.last(),
                acknowledgements.last(),
                after,
            )
        };
    if deliveries.len() > 1 {
        if at < deliveries.len() - 1 {
            lemma_answers_follow_payloads(
                before,
                deliveries.drop_last(),
                acknowledgements.drop_last(),
                between,
                at,
            );
        } else {
            lemma_answers_follow_payloads(
                before,
                deliveries.drop_last(),
                acknowledgements.drop_last(),
                between,
                0,
            );
        }
    }
}

} // verus!
