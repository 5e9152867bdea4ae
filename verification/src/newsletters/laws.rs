//! What holds of whole runs of the publish command.
//!
//! The runs are taken in a world that answers each action of the command:
//! a store of saved responses that refuses a second save under one caller
//! and key, a snapshot of confirmed subscribers, and a delivery that fails
//! for the addresses the world refuses and for no others.

use super::content::{revalidated, ContentView, FormView};
use super::publish::{
    newsletters_page, save_failed, send_failed, step, take_up, ActionView, EventView, StateView,
    SubmissionView,
};
use crate::domain::subscriber_email::is_valid_email;
use crate::idempotency::key::is_valid_key;
use crate::idempotency::persistence::{replay_of, saved_of, SavedResponseView, UserId};
use crate::idempotency::response::{see_other_view, ResponseView};
use vstd::prelude::*;

verus! {

/// One delivery: the address and what was sent to it.
pub struct Delivery {
    pub to: Seq<char>,
    pub content: ContentView,
}

/// Everything outside the command: the saved responses, the stored emails
/// of the confirmed subscribers in snapshot order, the deliveries made so
/// far, the addresses to which a delivery fails, and the time.
pub struct World {
    pub saved: Map<(UserId, Seq<char>), SavedResponseView>,
    pub confirmed: Seq<Seq<char>>,
    pub delivered: Seq<Delivery>,
    pub refused: Set<Seq<char>>,
    pub now: i64,
}

/// The cause that a refused delivery reports.
pub open spec fn delivery_refused() -> Seq<char> {
    "The delivery was refused"@
}

/// The cause that a saved response with an invalid status reports.
pub open spec fn invalid_status() -> Seq<char> {
    "The saved response has an invalid status code"@
}

/// The cause that a second save under one caller and key reports.
pub open spec fn duplicate_save() -> Seq<char> {
    "A response is already saved for this idempotency key"@
}

/// How the world answers an action, and what the action leaves of the
/// world. Only a delivery that succeeds and a save under a fresh key
/// change anything.
pub open spec fn answer(world: World, action: ActionView) -> (EventView, World) {
    match action {
        ActionView::Lookup { user_id, key } => (
            if world.saved.contains_key((user_id, key)) {
                match replay_of(world.saved[(user_id, key)]) {
                    Some(response) => EventView::Lookup(Ok(Some(response))),
                    None => EventView::Lookup(Err(invalid_status())),
                }
            } else {
                EventView::Lookup(Ok(None))
            },
            world,
        ),
        ActionView::FetchSubscribers => (
            EventView::Subscribers(Ok(revalidated(world.confirmed))),
            world,
        ),
        ActionView::Send { to, content } => if world.refused.contains(to) {
            (EventView::Sent(Err(delivery_refused())), world)
        } else {
            (
                EventView::Sent(Ok(())),
                World { delivered: world.delivered.push(Delivery { to, content }), ..world },
            )
        },
        ActionView::Warn { cause } => (EventView::Warned, world),
        ActionView::Save { user_id, key, response } => if world.saved.contains_key((user_id, key)) {
            (EventView::Saved(Err(duplicate_save())), world)
        } else {
            (
                EventView::Saved(Ok(response)),
                World {
                    saved: world.saved.insert((user_id, key), saved_of(response, world.now)),
                    ..world
                },
            )
        },
        _ => (EventView::Begin, world),
    }
}

/// Performs `action` and goes on from `state` until an action ends the
/// command or `fuel` actions were performed. The result is the last
/// action and the world it finds.
pub open spec fn proceed(state: StateView, action: ActionView, world: World, fuel: nat) -> (
    ActionView,
    World,
)
    decreases fuel,
{
    if action.is_final() || fuel == 0 {
        (action, world)
    } else {
        let (event, after) = answer(world, action);
        let (next, asked) = step(state, event);
        proceed(next, asked, after, (fuel - 1) as nat)
    }
}

/// One whole invocation of the publish command by `user_id` with `form`:
/// the action that ends it and the world it leaves.
pub open spec fn publish(world: World, user_id: UserId, form: FormView) -> (ActionView, World) {
    let (state, action) = step(StateView::KeyReceived { user_id, form }, EventView::Begin);
    proceed(state, action, world, world.confirmed.len() + 3)
}

/// The delivery that a stored email gets: one if it is valid, none if not.
pub open spec fn delivery_of(stored: Seq<char>, content: ContentView) -> Option<Delivery> {
    if is_valid_email(stored) {
        Some(Delivery { to: stored, content })
    } else {
        None
    }
}

/// One delivery of `content` for each valid stored email, in order.
pub open spec fn deliveries(confirmed: Seq<Seq<char>>, content: ContentView) -> Seq<Delivery> {
    confirmed.filter_map(|stored: Seq<char>| delivery_of(stored, content))
}

/// No delivery to a valid stored email among the first `upto` fails.
pub open spec fn all_accepted(world: World, upto: int) -> bool {
    forall|i: int|
        0 <= i < upto && i < world.confirmed.len() && is_valid_email(#[trigger] world.confirmed[i])
            ==> !world.refused.contains(world.confirmed[i])
}

/// The response of a successful publication.
pub open spec fn published() -> ResponseView {
    see_other_view(newsletters_page())
}

/// How a run ends once every recipient was served or skipped: the
/// redirect is saved and answered where nothing is saved yet under the
/// caller and key; where something is, the save fails and so does the
/// command.
pub open spec fn conclusion(submission: SubmissionView, world: World) -> (ActionView, World) {
    if world.saved.contains_key((submission.user_id, submission.key)) {
        (ActionView::Fail(save_failed(duplicate_save())), world)
    } else {
        (
            ActionView::Respond(published()),
            World {
                saved: world.saved.insert(
                    (submission.user_id, submission.key),
                    saved_of(published(), world.now),
                ),
                ..world
            },
        )
    }
}

proof fn lemma_serves_the_rest(
    submission: SubmissionView,
    world: World,
    base: Seq<Delivery>,
    next: int,
    fuel: nat,
)
    requires
        0 <= next <= world.confirmed.len(),
        fuel >= world.confirmed.len() - next + 1,
        world.delivered == base + deliveries(world.confirmed.take(next), submission.content),
        all_accepted(world, world.confirmed.len() as int),
    ensures
        ({
            let (state, action) = take_up(submission, revalidated(world.confirmed), next);
            proceed(state, action, world, fuel) == conclusion(
                submission,
                World {
                    delivered: base + deliveries(world.confirmed, submission.content),
                    ..world
                },
            )
        }),
    decreases world.confirmed.len() - next,
{
    let recipients = revalidated(world.confirmed);
    let (state, action) = take_up(submission, recipients, next);
    let pick = |stored: Seq<char>| delivery_of(stored, submission.content);
    if next < world.confirmed.len() {
        let (event, after) = answer(world, action);
        let (state2, action2) = step(state, event);
        assert(is_valid_email(world.confirmed[next]) ==> !world.refused.contains(
            world.confirmed[next],
        ));
        assert((state2, action2) == take_up(submission, recipients, next + 1));
        world.confirmed.lemma_filter_map_take_succ(pick, next);
        assert(after.delivered =~= base + deliveries(
            world.confirmed.take(next + 1),
            submission.content,
        ));
        assert(all_accepted(after, after.confirmed.len() as int));
        lemma_serves_the_rest(submission, after, base, next + 1, (fuel - 1) as nat);
    } else {
        assert(world.confirmed.take(next) == world.confirmed);
        reveal_with_fuel(proceed, 3);
    }
}

proof fn lemma_stops_at_refusal(
    submission: SubmissionView,
    world: World,
    base: Seq<Delivery>,
    next: int,
    failing: int,
    fuel: nat,
)
    requires
        0 <= next <= failing < world.confirmed.len(),
        fuel >= failing - next + 1,
        world.delivered == base + deliveries(world.confirmed.take(next), submission.content),
        all_accepted(world, failing),
        is_valid_email(world.confirmed[failing]),
        world.refused.contains(world.confirmed[failing]),
    ensures
        ({
            let (state, action) = take_up(submission, revalidated(world.confirmed), next);
            proceed(state, action, world, fuel) == (
                ActionView::Fail(send_failed(world.confirmed[failing], delivery_refused())),
                World {
                    delivered: base + deliveries(
                        world.confirmed.take(failing),
                        submission.content,
                    ),
                    ..world
                },
            )
        }),
    decreases failing - next,
{
    let recipients = revalidated(world.confirmed);
    let (state, action) = take_up(submission, recipients, next);
    let pick = |stored: Seq<char>| delivery_of(stored, submission.content);
    if next < failing {
        let (event, after) = answer(world, action);
        let (state2, action2) = step(state, event);
        assert(is_valid_email(world.confirmed[next]) ==> !world.refused.contains(
            world.confirmed[next],
        ));
        assert((state2, action2) == take_up(submission, recipients, next + 1));
        world.confirmed.lemma_filter_map_take_succ(pick, next);
        assert(after.delivered =~= base + deliveries(
            world.confirmed.take(next + 1),
            submission.content,
        ));
        assert(all_accepted(after, failing));
        lemma_stops_at_refusal(submission, after, base, next + 1, failing, (fuel - 1) as nat);
    } else {
        reveal_with_fuel(proceed, 3);
    }
}

/// A first execution: with a valid key under which nothing is saved for
/// the caller, and no delivery failing, the command delivers the
/// newsletter once to each confirmed subscriber whose stored email is
/// valid, in snapshot order, and to nobody else. An invalid stored email
/// is skipped and does not stop the others. The redirect is saved under
/// the caller and key, and is the answer.
pub proof fn lemma_first_execution(world: World, user_id: UserId, form: FormView)
    requires
        is_valid_key(form.idempotency_key),
        !world.saved.contains_key((user_id, form.idempotency_key)),
        all_accepted(world, world.confirmed.len() as int),
    ensures
        publish(world, user_id, form) == (
            ActionView::Respond(published()),
            World {
                delivered: world.delivered + deliveries(world.confirmed, form.content),
                saved: world.saved.insert(
                    (user_id, form.idempotency_key),
                    saved_of(published(), world.now),
                ),
                ..world
            },
        ),
{
    let submission = SubmissionView { user_id, key: form.idempotency_key, content: form.content };
    let pick = |stored: Seq<char>| delivery_of(stored, submission.content);
    assert(world.confirmed.take(0).filter_map(pick) =~= Seq::<Delivery>::empty());
    assert(world.delivered =~= world.delivered + deliveries(
        world.confirmed.take(0),
        submission.content,
    ));
    lemma_serves_the_rest(
        submission,
        world,
        world.delivered,
        0,
        (world.confirmed.len() + 1) as nat,
    );
    reveal_with_fuel(proceed, 3);
}

/// Leaving out a stored email that is invalid changes no delivery.
pub proof fn lemma_invalid_email_gets_no_delivery(
    confirmed: Seq<Seq<char>>,
    content: ContentView,
    at: int,
)
    requires
        0 <= at < confirmed.len(),
        !is_valid_email(confirmed[at]),
    ensures
        deliveries(confirmed, content) == deliveries(confirmed.remove(at), content),
    decreases confirmed.len(),
{
    let pick = |stored: Seq<char>| delivery_of(stored, content);
    if at == confirmed.len() - 1 {
        assert(confirmed.remove(at) == confirmed.drop_last());
    } else {
        assert(confirmed.remove(at).drop_last() == confirmed.drop_last().remove(at));
        assert(confirmed.remove(at).last() == confirmed.last());
        lemma_invalid_email_gets_no_delivery(confirmed.drop_last(), content, at);
    }
}

/// A confirmed subscriber whose stored email is invalid does not stop the
/// delivery: the command completes, and the others are served exactly as
/// if that subscriber were not in the snapshot.
pub proof fn lemma_invalid_email_is_skipped(world: World, user_id: UserId, form: FormView, at: int)
    requires
        is_valid_key(form.idempotency_key),
        !world.saved.contains_key((user_id, form.idempotency_key)),
        all_accepted(world, world.confirmed.len() as int),
        0 <= at < world.confirmed.len(),
        !is_valid_email(world.confirmed[at]),
    ensures
        publish(world, user_id, form).0 == ActionView::Respond(published()),
        publish(world, user_id, form).1.delivered == world.delivered + deliveries(
            world.confirmed.remove(at),
            form.content,
        ),
{
    lemma_first_execution(world, user_id, form);
    lemma_invalid_email_gets_no_delivery(world.confirmed, form.content, at);
}

/// A replay: with a valid key under which a response is saved for the
/// caller, the command answers with that response as it was saved, and
/// the world stays as it is: nothing is fetched, delivered or saved.
pub proof fn lemma_replay(world: World, user_id: UserId, form: FormView)
    requires
        is_valid_key(form.idempotency_key),
        world.saved.contains_key((user_id, form.idempotency_key)),
        replay_of(world.saved[(user_id, form.idempotency_key)]) is Some,
    ensures
        publish(world, user_id, form) == (
            ActionView::Respond(replay_of(world.saved[(user_id, form.idempotency_key)])->0),
            world,
        ),
{
    reveal_with_fuel(proceed, 3);
}

/// Publishing twice with the same caller and the same fresh key, while no
/// delivery fails, delivers once to each valid confirmed subscriber and
/// answers both times with the same response. The second invocation
/// delivers and saves nothing, whoever was confirmed and whichever
/// deliveries would fail in between.
pub proof fn lemma_publish_is_idempotent(
    world: World,
    user_id: UserId,
    form: FormView,
    confirmed_later: Seq<Seq<char>>,
    refused_later: Set<Seq<char>>,
    later: i64,
)
    requires
        is_valid_key(form.idempotency_key),
        !world.saved.contains_key((user_id, form.idempotency_key)),
        all_accepted(world, world.confirmed.len() as int),
    ensures
        ({
            let (first, between) = publish(world, user_id, form);
            let retried = World {
                confirmed: confirmed_later,
                refused: refused_later,
                now: later,
                ..between
            };
            let (second, after) = publish(retried, user_id, form);
            &&& first == ActionView::Respond(published())
            &&& second == first
            &&& between.delivered == world.delivered + deliveries(world.confirmed, form.content)
            &&& between.confirmed == world.confirmed
            &&& between.refused == world.refused
            &&& between.now == world.now
            &&& after.delivered == between.delivered
            &&& after.saved == between.saved
        }),
{
    lemma_first_execution(world, user_id, form);
    let (first, between) = publish(world, user_id, form);
    let retried = World {
        confirmed: confirmed_later,
        refused: refused_later,
        now: later,
        ..between
    };
    lemma_replay(retried, user_id, form);
}

/// A failed delivery ends the whole command: where the delivery to the
/// recipient at `failing` is the first that fails, the recipients before
/// it were served, nobody after it is, the command fails naming that
/// recipient, and nothing is saved. A retry with the same key therefore
/// executes again, and reaches the recipients served before once more.
pub proof fn lemma_failed_delivery_saves_nothing(
    world: World,
    user_id: UserId,
    form: FormView,
    failing: int,
)
    requires
        is_valid_key(form.idempotency_key),
        !world.saved.contains_key((user_id, form.idempotency_key)),
        0 <= failing < world.confirmed.len(),
        all_accepted(world, failing),
        is_valid_email(world.confirmed[failing]),
        world.refused.contains(world.confirmed[failing]),
    ensures
        publish(world, user_id, form) == (
            ActionView::Fail(send_failed(world.confirmed[failing], delivery_refused())),
            World {
                delivered: world.delivered + deliveries(
                    world.confirmed.take(failing),
                    form.content,
                ),
                ..world
            },
        ),
{
    let submission = SubmissionView { user_id, key: form.idempotency_key, content: form.content };
    let pick = |stored: Seq<char>| delivery_of(stored, submission.content);
    assert(world.confirmed.take(0).filter_map(pick) =~= Seq::<Delivery>::empty());
    assert(world.delivered =~= world.delivered + deliveries(
        world.confirmed.take(0),
        submission.content,
    ));
    lemma_stops_at_refusal(
        submission,
        world,
        world.delivered,
        0,
        failing,
        (world.confirmed.len() + 1) as nat,
    );
    reveal_with_fuel(proceed, 3);
}

/// An invalid key ends the command at once: the answer is the rejection,
/// and nothing is looked up, delivered or saved.
pub proof fn lemma_invalid_key_is_rejected(world: World, user_id: UserId, form: FormView)
    requires
        !is_valid_key(form.idempotency_key),
    ensures
        publish(world, user_id, form).0 is Reject,
        publish(world, user_id, form).1 == world,
{
}

/// The lookup and the save of one invocation are not one step. Where two
/// invocations with the same caller and fresh key both look up before
/// either saves, both find nothing and both deliver: every valid
/// confirmed subscriber is reached twice. The first to finish saves the
/// response; the second finds the key taken and fails.
pub proof fn lemma_lookup_and_save_can_interleave(world: World, user_id: UserId, form: FormView)
    requires
        is_valid_key(form.idempotency_key),
        !world.saved.contains_key((user_id, form.idempotency_key)),
        all_accepted(world, world.confirmed.len() as int),
    ensures
        ({
            let start = step(StateView::KeyReceived { user_id, form }, EventView::Begin);
            let one = step(start.0, answer(world, start.1).0);
            let other = step(start.0, answer(world, start.1).0);
            let (first, between) = proceed(one.0, one.1, world, world.confirmed.len() + 2);
            let (second, after) = proceed(other.0, other.1, between, world.confirmed.len() + 2);
            &&& one.1 is FetchSubscribers
            &&& other.1 is FetchSubscribers
            &&& first == ActionView::Respond(published())
            &&& second == ActionView::Fail(save_failed(duplicate_save()))
            &&& after.delivered == world.delivered + deliveries(world.confirmed, form.content)
                + deliveries(world.confirmed, form.content)
            &&& after.saved == between.saved
        }),
{
    let submission = SubmissionView { user_id, key: form.idempotency_key, content: form.content };
    let pick = |stored: Seq<char>| delivery_of(stored, submission.content);
    assert(world.confirmed.take(0).filter_map(pick) =~= Seq::<Delivery>::empty());
    assert(world.delivered =~= world.delivered + deliveries(
        world.confirmed.take(0),
        submission.content,
    ));
    lemma_serves_the_rest(
        submission,
        world,
        world.delivered,
        0,
        (world.confirmed.len() + 1) as nat,
    );
    let start = step(StateView::KeyReceived { user_id, form }, EventView::Begin);
    let one = step(start.0, answer(world, start.1).0);
    let (first, between) = proceed(one.0, one.1, world, world.confirmed.len() + 2);
    reveal_with_fuel(proceed, 2);
    assert(between.delivered =~= between.delivered + deliveries(
        between.confirmed.take(0),
        submission.content,
    ));
    assert(all_accepted(between, between.confirmed.len() as int));
    lemma_serves_the_rest(
        submission,
        between,
        between.delivered,
        0,
        (world.confirmed.len() + 1) as nat,
    );
}

} // verus!
