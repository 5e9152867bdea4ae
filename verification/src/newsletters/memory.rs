//! A backend held in memory: the saved responses, the subscribers, and an
//! outbox that records each delivery. It answers every action of the
//! publish command, and so runs the command from its start to its end.

use super::content::{get_confirmed_subscribers, FormData, NewsletterContent};
use super::laws::{answer, proceed, publish, Delivery, World};
use super::publish::{
    publish_newsletter, step, ActionView, PublishAction, PublishEvent, PublishState, StateView,
};
use crate::domain::SubscriberEmail;
use crate::idempotency::persistence::{get_saved_response, save_response, ResponseStore, UserId};
use crate::subscriptions::{confirmed_emails, SubscriptionStore};
use vstd::prelude::*;

verus! {

/// One delivery that was made.
#[derive(Debug)]
pub struct Delivered {
    pub to: SubscriberEmail,
    pub content: NewsletterContent,
}

impl View for Delivered {
    type V = Delivery;

    open spec fn view(&self) -> Delivery {
        Delivery { to: self.to@, content: self.content@ }
    }
}

/// The backend: both stores, the deliveries made so far, the addresses
/// to which a delivery fails, and the time that a save is stamped with.
pub struct Backend {
    pub responses: ResponseStore,
    pub subscriptions: SubscriptionStore,
    pub delivered: Vec<Delivered>,
    pub refused: Vec<String>,
    pub now: i64,
}

/// The addresses that a list of refused addresses names.
pub open spec fn refused_set(refused: Seq<String>) -> Set<Seq<char>> {
    Set::new(|to: Seq<char>| exists|i: int| 0 <= i < refused.len() && refused[i]@ == to)
}

impl View for Backend {
    type V = World;

    open spec fn view(&self) -> World {
        World {
            saved: self.responses@,
            confirmed: confirmed_emails(self.subscriptions@.subscribers),
            delivered: self.delivered@.map_values(|d: Delivered| d@),
            refused: refused_set(self.refused@),
            now: self.now,
        }
    }
}

/// The number of actions that are still to be answered, at most, when the
/// command is in `state` and `confirmed` subscribers are in the snapshot.
pub open spec fn actions_left(state: StateView, confirmed: nat) -> nat {
    match state {
        StateView::KeyReceived { .. } => confirmed + 4,
        StateView::KeyValidated { .. } => confirmed + 3,
        StateView::AwaitingSubscribers { .. } => confirmed + 2,
        StateView::Sending { recipients, cursor, .. } => if 0 <= cursor < recipients.len() {
            (recipients.len() - cursor + 1) as nat
        } else {
            1
        },
        StateView::Skipping { recipients, cursor, .. } => if 0 <= cursor < recipients.len() {
            (recipients.len() - cursor + 1) as nat
        } else {
            1
        },
        StateView::Saving => 1,
        _ => 0,
    }
}

/// `action` is what the machine asked for when it entered `state`, in a
/// run over a snapshot of `confirmed` subscribers.
pub open spec fn is_out(state: StateView, action: ActionView, confirmed: nat) -> bool {
    match state {
        StateView::KeyReceived { .. } => false,
        StateView::KeyValidated { .. } => action is Lookup,
        StateView::AwaitingSubscribers { .. } => action is FetchSubscribers,
        StateView::Sending { recipients, cursor, .. } => {
            &&& action is Send
            &&& recipients.len() == confirmed
            &&& 0 <= cursor < recipients.len()
            &&& recipients[cursor] is Ok
        },
        StateView::Skipping { recipients, cursor, .. } => {
            &&& action is Warn
            &&& recipients.len() == confirmed
            &&& 0 <= cursor < recipients.len()
        },
        StateView::Saving => action is Save,
        _ => action.is_final(),
    }
}

/// Each answered action brings the command nearer to its end.
proof fn lemma_answer_makes_progress(state: StateView, action: ActionView, world: World)
    requires
        is_out(state, action, world.confirmed.len()),
        !action.is_final(),
    ensures
        ({
            let (event, after) = answer(world, action);
            let (next, asked) = step(state, event);
            &&& after.confirmed == world.confirmed
            &&& is_out(next, asked, world.confirmed.len())
            &&& actions_left(next, world.confirmed.len()) < actions_left(
                state,
                world.confirmed.len(),
            )
        }),
{
}

impl Backend {
    /// A backend that holds nothing and refuses no delivery.
    pub fn new(now: i64) -> (backend: Backend)
        ensures
            backend@.saved.dom() == Set::<(UserId, Seq<char>)>::empty(),
            backend@.confirmed == Seq::<Seq<char>>::empty(),
            backend@.delivered == Seq::<Delivery>::empty(),
            backend@.refused == Set::<Seq<char>>::empty(),
            backend@.now == now,
    {
        let backend = Backend {
            responses: ResponseStore::new(),
            subscriptions: SubscriptionStore::new(),
            delivered: Vec::new(),
            refused: Vec::new(),
            now,
        };
        assert(backend@.refused =~= Set::<Seq<char>>::empty());
        assert(backend@.delivered =~= Seq::<Delivery>::empty());
        assert(backend@.saved.dom() =~= Set::<(UserId, Seq<char>)>::empty());
        backend
    }

    /// Whether a delivery to `to` fails.
    pub fn refuses(&self, to: &String) -> (b: bool)
        ensures
            b == self@.refused.contains(to@),
    {
        let mut i: usize = 0;
        while i < self.refused.len()
            invariant
                i <= self.refused.len(),
                forall|j: int| 0 <= j < i ==> self.refused[j]@ != to@,
            decreases self.refused.len() - i,
        {
            if self.refused[i] == *to {
                return true;
            }
            i += 1;
        }
        false
    }

    /// Performs `action` and says what came of it. A lookup and a fetch
    /// read the stores; a delivery is recorded unless its address is
    /// refused; a save goes to the store of responses. An action that ends
    /// the command changes nothing.
    pub fn answer(&mut self, action: PublishAction) -> (event: PublishEvent)
        ensures
            (event@, final(self)@) == answer(old(self)@, action@),
    {
        match action {
            PublishAction::Lookup { user_id, key } => {
                match get_saved_response(user_id, &key, &self.responses) {
                    Ok(found) => PublishEvent::Lookup(Ok(found)),
                    Err(error) => PublishEvent::Lookup(Err(error.message())),
                }
            },
            PublishAction::FetchSubscribers => PublishEvent::Subscribers(
                Ok(get_confirmed_subscribers(&self.subscriptions)),
            ),
            PublishAction::Send { to, content } => {
                let address = to.to_string();
                if self.refuses(&address) {
                    PublishEvent::Sent(Err("The delivery was refused".to_owned()))
                } else {
                    self.delivered.push(Delivered { to, content });
                    assert(self@.delivered =~= old(self)@.delivered.push(
                        Delivery { to: to@, content: content@ },
                    ));
                    PublishEvent::Sent(Ok(()))
                }
            },
            PublishAction::Warn { .. } => PublishEvent::Warned,
            PublishAction::Save { user_id, key, response } => {
                match save_response(user_id, &key, &mut self.responses, response, self.now) {
                    Ok(saved) => PublishEvent::Saved(Ok(saved)),
                    Err(error) => PublishEvent::Saved(Err(error.message())),
                }
            },
            _ => PublishEvent::Begin,
        }
    }

    /// Runs one invocation of the publish command from its start to its
    /// end and hands out the action that ends it. The command always
    /// ends: no more actions are answered than confirmed subscribers are
    /// in the snapshot, and three.
    pub fn publish(&mut self, user_id: UserId, form: FormData) -> (last: PublishAction)
        ensures
            (last@, final(self)@) == publish(old(self)@, user_id, form@),
            last@.is_final(),
    {
        let ghost confirmed = self@.confirmed.len();
        let ghost mut fuel: nat = confirmed + 3;
        let (mut state, mut action) = publish_newsletter(
            PublishState::KeyReceived { user_id, form },
            PublishEvent::Begin,
        );
        while !action.is_final()
            invariant
                self@.confirmed.len() == confirmed,
                is_out(state@, action@, confirmed),
                actions_left(state@, confirmed) <= fuel,
                proceed(state@, action@, self@, fuel) == publish(old(self)@, user_id, form@),
            decreases actions_left(state@, confirmed),
        {
            proof {
                lemma_answer_makes_progress(state@, action@, self@);
            }
            let event = self.answer(action);
            let (next, asked) = publish_newsletter(state, event);
            state = next;
            action = asked;
            proof {
                fuel = (fuel - 1) as nat;
            }
        }
        action
    }
}

} // verus!
