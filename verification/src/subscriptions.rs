//! The subscribers, their confirmation tokens, and the confirmation of a
//! subscription by its token.

use crate::idempotency::response::{INTERNAL_SERVER_ERROR, OK, UNAUTHORIZED};
use vstd::prelude::*;
use vstd::string::StringExecFns;

verus! {

/// The identity of a subscriber.
#[derive(Debug, Clone, Copy, PartialEq, Eq, Structural)]
pub struct SubscriberId(pub u128);

/// Where a subscriber stands. A subscriber starts as pending and can only
/// move to confirmed.
#[derive(Debug, Clone, Copy, PartialEq, Eq, Structural)]
pub enum SubscriberStatus {
    PendingConfirmation,
    Confirmed,
}

/// What a stored subscriber is.
pub struct SubscriberView {
    pub id: SubscriberId,
    pub email: Seq<char>,
    pub name: Seq<char>,
    pub status: SubscriberStatus,
}

/// A stored subscriber. Email and name are held as they were written, and
/// are validated again when they are read for a delivery.
#[derive(Debug)]
pub struct Subscriber {
    pub id: SubscriberId,
    pub email: String,
    pub name: String,
    pub status: SubscriberStatus,
}

impl View for Subscriber {
    type V = SubscriberView;

    open spec fn view(&self) -> SubscriberView {
        SubscriberView { id: self.id, email: self.email@, name: self.name@, status: self.status }
    }
}

/// What the store holds: the subscribers in the order they were added, and
/// the subscriber that each token stands for.
pub struct SubscriptionsView {
    pub subscribers: Seq<SubscriberView>,
    pub tokens: Map<Seq<char>, SubscriberId>,
}

/// The subscriber `s` after `id` was confirmed.
pub open spec fn confirmed_one(s: SubscriberView, id: SubscriberId) -> SubscriberView {
    if s.id == id {
        SubscriberView { status: SubscriberStatus::Confirmed, ..s }
    } else {
        s
    }
}

/// The store after `id` was confirmed: every subscriber of that identity
/// is confirmed, and nothing else differs.
pub open spec fn confirmed(v: SubscriptionsView, id: SubscriberId) -> SubscriptionsView {
    SubscriptionsView {
        subscribers: v.subscribers.map_values(|s: SubscriberView| confirmed_one(s, id)),
        tokens: v.tokens,
    }
}

/// The stored emails of the confirmed subscribers, in the store's order.
pub open spec fn confirmed_emails(subscribers: Seq<SubscriberView>) -> Seq<Seq<char>> {
    subscribers.filter_map(|s: SubscriberView| confirmed_email(s))
}

/// The stored email of a subscriber that is confirmed, and nothing for one
/// that is pending.
pub open spec fn confirmed_email(s: SubscriberView) -> Option<Seq<char>> {
    if s.status == SubscriberStatus::Confirmed {
        Some(s.email)
    } else {
        None
    }
}

/// `stored` is among the subscribers, and is the only one of its identity.
pub open spec fn is_the_subscriber(subscribers: Seq<SubscriberView>, stored: SubscriberView) -> bool {
    &&& subscribers.contains(stored)
    &&& forall|i: int|
        0 <= i < subscribers.len() && subscribers[i].id == stored.id ==> subscribers[i] == stored
}

/// Whether a subscriber of this identity is stored.
pub open spec fn has_subscriber(subscribers: Seq<SubscriberView>, id: SubscriberId) -> bool {
    exists|i: int| 0 <= i < subscribers.len() && subscribers[i].id == id
}

struct TokenRow {
    subscription_token: String,
    subscriber_id: SubscriberId,
}

spec fn token_table(rows: Seq<TokenRow>) -> Map<Seq<char>, SubscriberId>
    decreases rows.len(),
{
    if rows.len() == 0 {
        Map::empty()
    } else {
        token_table(rows.drop_last()).insert(
            rows.last().subscription_token@,
            rows.last().subscriber_id,
        )
    }
}

spec fn distinct_tokens(rows: Seq<TokenRow>) -> bool {
    forall|i: int, j: int|
        0 <= i < j < rows.len() ==> rows[i].subscription_token@ != rows[j].subscription_token@
}

spec fn distinct_ids(subscribers: Seq<Subscriber>) -> bool {
    forall|i: int, j: int| 0 <= i < j < subscribers.len() ==> subscribers[i].id != subscribers[j].id
}

spec fn views(subscribers: Seq<Subscriber>) -> Seq<SubscriberView> {
    subscribers.map_values(|s: Subscriber| s@)
}

proof fn lemma_token_domain(rows: Seq<TokenRow>, token: Seq<char>)
    ensures
        token_table(rows).contains_key(token) <==> exists|i: int|
            0 <= i < rows.len() && rows[i].subscription_token@ == token,
    decreases rows.len(),
{
    if rows.len() > 0 {
        lemma_token_domain(rows.drop_last(), token);
        if token_table(rows).contains_key(token) {
            if rows.last().subscription_token@ == token {
                assert(rows[rows.len() - 1].subscription_token@ == token);
            } else {
                let i = choose|i: int|
                    0 <= i < rows.drop_last().len() && rows.drop_last()[i].subscription_token@
                        == token;
                assert(rows[i].subscription_token@ == token);
            }
        }
        if exists|i: int| 0 <= i < rows.len() && rows[i].subscription_token@ == token {
            let i = choose|i: int| 0 <= i < rows.len() && rows[i].subscription_token@ == token;
            if i < rows.len() - 1 {
                assert(rows.drop_last()[i].subscription_token@ == token);
            }
        }
    }
}

proof fn lemma_token_row(rows: Seq<TokenRow>, i: int)
    requires
        distinct_tokens(rows),
        0 <= i < rows.len(),
    ensures
        token_table(rows).contains_key(rows[i].subscription_token@),
        token_table(rows)[rows[i].subscription_token@] == rows[i].subscriber_id,
    decreases rows.len(),
{
    if i < rows.len() - 1 {
        assert(rows.drop_last()[i] == rows[i]);
        lemma_token_row(rows.drop_last(), i);
    }
}

/// The subscribers and the confirmation tokens.
pub struct SubscriptionStore {
    subscribers: Vec<Subscriber>,
    tokens: Vec<TokenRow>,
}

impl View for SubscriptionStore {
    type V = SubscriptionsView;

    closed spec fn view(&self) -> SubscriptionsView {
        SubscriptionsView {
            subscribers: views(self.subscribers@),
            tokens: token_table(self.tokens@),
        }
    }
}

impl SubscriptionStore {
    #[verifier::type_invariant]
    spec fn well_formed(&self) -> bool {
        &&& distinct_ids(self.subscribers@)
        &&& distinct_tokens(self.tokens@)
    }

    /// A store without subscribers and tokens.
    pub fn new() -> (store: SubscriptionStore)
        ensures
            store@.subscribers == Seq::<SubscriberView>::empty(),
            store@.tokens == Map::<Seq<char>, SubscriberId>::empty(),
    {
        let store = SubscriptionStore { subscribers: Vec::new(), tokens: Vec::new() };
        assert(store@.subscribers =~= Seq::<SubscriberView>::empty());
        store
    }

    fn find_subscriber(&self, id: SubscriberId) -> (found: Option<usize>)
        ensures
            match found {
                Some(i) => i < self.subscribers.len() && self.subscribers[i as int].id == id,
                None => forall|i: int| 0 <= i < self.subscribers.len() ==> self.subscribers[i].id != id,
            },
    {
        let mut i: usize = 0;
        while i < self.subscribers.len()
            invariant
                i <= self.subscribers.len(),
                forall|j: int| 0 <= j < i ==> self.subscribers[j].id != id,
            decreases self.subscribers.len() - i,
        {
            if self.subscribers[i].id == id {
                return Some(i);
            }
            i += 1;
        }
        None
    }

    fn find_token(&self, token: &String) -> (found: Option<usize>)
        ensures
            match found {
                Some(i) => i < self.tokens.len() && self.tokens[i as int].subscription_token@ == token@,
                None => forall|i: int|
                    0 <= i < self.tokens.len() ==> self.tokens[i].subscription_token@ != token@,
            },
    {
        let mut i: usize = 0;
        while i < self.tokens.len()
            invariant
                i <= self.tokens.len(),
                forall|j: int| 0 <= j < i ==> self.tokens[j].subscription_token@ != token@,
            decreases self.tokens.len() - i,
        {
            if self.tokens[i].subscription_token == *token {
                return Some(i);
            }
            i += 1;
        }
        None
    }

    /// Adds a subscriber that awaits confirmation, after those already
    /// stored. Where the identity is already stored, nothing changes and
    /// the answer is `false`.
    pub fn insert_subscriber(&mut self, id: SubscriberId, email: String, name: String) -> (added:
        bool)
        ensures
            added == !has_subscriber(old(self)@.subscribers, id),
            added ==> final(self)@.subscribers == old(self)@.subscribers.push(
                SubscriberView { id, email: email@, name: name@, status: SubscriberStatus::PendingConfirmation },
            ),
            !added ==> final(self)@.subscribers == old(self)@.subscribers,
            final(self)@.tokens == old(self)@.tokens,
    {
        proof {
            use_type_invariant(&*self);
        }
        let found = self.find_subscriber(id);
        proof {
            if found is Some {
                assert(self@.subscribers[found.unwrap() as int].id == id);
            } else if has_subscriber(self@.subscribers, id) {
                let i = choose|i: int| 0 <= i < self@.subscribers.len() && self@.subscribers[i].id == id;
                assert(self.subscribers[i].id == id);
            }
        }
        if found.is_some() {
            return false;
        }
        let mut taken = SubscriptionStore::new();
        std::mem::swap(self, &mut taken);
        let SubscriptionStore { mut subscribers, tokens } = taken;
        let ghost before = subscribers@;
        subscribers.push(
            Subscriber { id, email, name, status: SubscriberStatus::PendingConfirmation },
        );
        *self = SubscriptionStore { subscribers, tokens };
        assert(self@.subscribers =~= views(before).push(
            SubscriberView { id, email: email@, name: name@, status: SubscriberStatus::PendingConfirmation },
        ));
        true
    }

    /// Records that `subscription_token` stands for `subscriber_id`. Where
    /// the token is already recorded, nothing changes and the answer is
    /// `false`.
    pub fn insert_token(&mut self, subscription_token: String, subscriber_id: SubscriberId) -> (added:
        bool)
        ensures
            added == !old(self)@.tokens.contains_key(subscription_token@),
            added ==> final(self)@.tokens == old(self)@.tokens.insert(
                subscription_token@,
                subscriber_id,
            ),
            !added ==> final(self)@.tokens == old(self)@.tokens,
            final(self)@.subscribers == old(self)@.subscribers,
    {
        proof {
            use_type_invariant(&*self);
            lemma_token_domain(self.tokens@, subscription_token@);
        }
        if self.find_token(&subscription_token).is_some() {
            return false;
        }
        let mut taken = SubscriptionStore::new();
        std::mem::swap(self, &mut taken);
        let SubscriptionStore { subscribers, mut tokens } = taken;
        let ghost before = tokens@;
        tokens.push(TokenRow { subscription_token, subscriber_id });
        proof {
            assert(tokens@.drop_last() == before);
        }
        *self = SubscriptionStore { subscribers, tokens };
        true
    }

    /// The stored emails of the subscribers that are confirmed now, in the
    /// store's order. What is handed out is a copy: later confirmations do
    /// not reach it.
    pub fn confirmed_emails(&self) -> (emails: Vec<String>)
        ensures
            emails.deep_view() == confirmed_emails(self@.subscribers),
    {
        let ghost all = self@.subscribers;
        let ghost pick = |s: SubscriberView| confirmed_email(s);
        let mut emails: Vec<String> = Vec::new();
        let mut i: usize = 0;
        assert(all.take(0).filter_map(pick) =~= Seq::<Seq<char>>::empty());
        while i < self.subscribers.len()
            invariant
                i <= self.subscribers.len(),
                all == self@.subscribers,
                all.len() == self.subscribers.len(),
                pick == |s: SubscriberView| confirmed_email(s),
                emails.deep_view() == all.take(i as int).filter_map(pick),
            decreases self.subscribers.len() - i,
        {
            let ghost before = emails.deep_view();
            proof {
                all.lemma_filter_map_take_succ(pick, i as int);
                assert(all[i as int] == self.subscribers[i as int]@);
            }
            if self.subscribers[i].status == SubscriberStatus::Confirmed {
                emails.push(self.subscribers[i].email.clone());
                assert(emails.deep_view() =~= before + seq![all[i as int].email]);
            }
            i += 1;
        }
        assert(all.take(i as int) == all);
        emails
    }

    /// The subscriber of this identity as stored, if one is stored.
    pub fn subscriber(&self, id: SubscriberId) -> (found: Option<&Subscriber>)
        ensures
            match found {
                Some(s) => s.id == id && is_the_subscriber(self@.subscribers, s@),
                None => !has_subscriber(self@.subscribers, id),
            },
    {
        proof {
            use_type_invariant(self);
        }
        match self.find_subscriber(id) {
            Some(i) => {
                assert(self@.subscribers[i as int] == self.subscribers[i as int]@);
                assert forall|j: int|
                    0 <= j < self@.subscribers.len() && self@.subscribers[j].id
                        == id implies self@.subscribers[j] == self.subscribers[i as int]@ by {
                    assert(self.subscribers[j].id == id);
                    assert(j == i);
                }
                Some(&self.subscribers[i])
            },
            None => {
                proof {
                    if has_subscriber(self@.subscribers, id) {
                        let i = choose|i: int|
                            0 <= i < self@.subscribers.len() && self@.subscribers[i].id == id;
                        assert(self.subscribers[i].id == id);
                    }
                }
                None
            },
        }
    }

    /// Where the subscriber of this identity stands, if one is stored.
    pub fn status(&self, id: SubscriberId) -> (status: Option<SubscriberStatus>)
        ensures
            match status {
                Some(s) => exists|stored: SubscriberView|
                    stored.id == id && stored.status == s && #[trigger] is_the_subscriber(
                        self@.subscribers,
                        stored,
                    ),
                None => !has_subscriber(self@.subscribers, id),
            },
    {
        match self.subscriber(id) {
            Some(stored) => Some(stored.status),
            None => None,
        }
    }
}

/// The address under which the service is reached from outside. The
/// links sent to subscribers start with it.
#[derive(Debug)]
pub struct ApplicationBaseUrl(pub String);

/// The link that confirms a subscription: the confirmation page under the
/// base address, with the token as its `subscription_token` parameter.
pub open spec fn confirmation_link_text(base_url: Seq<char>, subscription_token: Seq<char>) -> Seq<
    char,
> {
    base_url + "/subscriptions/confirm?subscription_token="@ + subscription_token
}

/// The link to send to a subscriber whose token is `subscription_token`.
pub fn confirmation_link(base_url: &ApplicationBaseUrl, subscription_token: &str) -> (link: String)
    ensures
        link@ == confirmation_link_text(base_url.0@, subscription_token@),
{
    base_url.0.clone().concat("/subscriptions/confirm?subscription_token=").concat(
        subscription_token,
    )
}

/// The token that a confirmation request carries.
#[derive(Debug)]
pub struct Parameters {
    subscription_token: String,
}

impl Parameters {
    pub fn new(subscription_token: String) -> (params: Parameters)
        ensures
            params.token() == subscription_token@,
    {
        Parameters { subscription_token }
    }

    /// The token as text.
    pub closed spec fn token(&self) -> Seq<char> {
        self.subscription_token@
    }

    pub fn subscription_token(&self) -> (token: &str)
        ensures
            token@ == self.token(),
    {
        self.subscription_token.as_str()
    }
}

/// Why a confirmation failed.
#[derive(Debug)]
pub enum SubscriptionConfirmError {
    /// No subscriber is associated with the token.
    UnknownToken,
    /// The storage failed; the text says how.
    UnexpectedError(String),
}

impl SubscriptionConfirmError {
    /// The status that the error is answered with.
    pub fn status_code(&self) -> (code: u16)
        ensures
            code == match *self {
                SubscriptionConfirmError::UnexpectedError(_) => INTERNAL_SERVER_ERROR,
                SubscriptionConfirmError::UnknownToken => UNAUTHORIZED,
            },
    {
        match self {
            SubscriptionConfirmError::UnexpectedError(_) => INTERNAL_SERVER_ERROR,
            SubscriptionConfirmError::UnknownToken => UNAUTHORIZED,
        }
    }

    /// The error in words.
    pub fn message(&self) -> (m: String)
        ensures
            m@ == match *self {
                SubscriptionConfirmError::UnexpectedError(cause) => cause@,
                SubscriptionConfirmError::UnknownToken => "There is no subscriber associated with the provided token."@,
            },
    {
        match self {
            SubscriptionConfirmError::UnexpectedError(cause) => cause.clone(),
            SubscriptionConfirmError::UnknownToken => {
                "There is no subscriber associated with the provided token.".to_owned()
            },
        }
    }
}

/// What a storage failure during the lookup of a token is reported as.
pub open spec fn lookup_failure(cause: Seq<char>) -> Seq<char> {
    "Failed to retrieve subscriber id associated with the confirmation token.: "@ + cause
}

/// Turns the outcome of a token lookup into the subscriber to confirm: the
/// subscriber found, `UnknownToken` where none was found, and an
/// unexpected error that names the cause where the storage failed.
pub fn resolve_token(lookup: Result<Option<SubscriberId>, String>) -> (r: Result<
    SubscriberId,
    SubscriptionConfirmError,
>)
    ensures
        match lookup {
            Ok(Some(id)) => r == Ok::<SubscriberId, SubscriptionConfirmError>(id),
            Ok(None) => r matches Err(SubscriptionConfirmError::UnknownToken),
            Err(cause) => r matches Err(SubscriptionConfirmError::UnexpectedError(text)) && text@
                == lookup_failure(cause@),
        },
{
    match lookup {
        Ok(Some(id)) => Ok(id),
        Ok(None) => Err(SubscriptionConfirmError::UnknownToken),
        Err(cause) => {
            let text =
                "Failed to retrieve subscriber id associated with the confirmation token.: ".to_owned().concat(
                cause.as_str(),
            );
            Err(SubscriptionConfirmError::UnexpectedError(text))
        },
    }
}

/// The subscriber that the token stands for, by exact match.
pub fn get_subscriber_id(subscription_token: &str, store: &SubscriptionStore) -> (id: Option<
    SubscriberId,
>)
    ensures
        id == (if store@.tokens.contains_key(subscription_token@) {
            Some(store@.tokens[subscription_token@])
        } else {
            None
        }),
{
    proof {
        use_type_invariant(store);
        lemma_token_domain(store.tokens@, subscription_token@);
    }
    let token = subscription_token.to_owned();
    match store.find_token(&token) {
        Some(i) => {
            proof {
                lemma_token_row(store.tokens@, i as int);
            }
            Some(store.tokens[i].subscriber_id)
        },
        None => None,
    }
}

/// Sets the subscriber of this identity to confirmed, whatever it was.
/// Nothing else changes; where the subscriber is already confirmed, or no
/// such subscriber is stored, nothing changes at all.
pub fn confirm_subscription(store: &mut SubscriptionStore, subscriber_id: SubscriberId)
    ensures
        final(store)@ == confirmed(old(store)@, subscriber_id),
{
    proof {
        use_type_invariant(&*store);
    }
    let mut taken = SubscriptionStore::new();
    std::mem::swap(store, &mut taken);
    let SubscriptionStore { mut subscribers, tokens } = taken;
    let ghost before = subscribers@;
    let mut i: usize = 0;
    while i < subscribers.len()
        invariant
            i <= subscribers.len(),
            subscribers.len() == before.len(),
            forall|j: int| 0 <= j < i ==> subscribers[j]@ == confirmed_one(before[j]@, subscriber_id),
            forall|j: int| i <= j < subscribers.len() ==> subscribers[j] == before[j],
            forall|j: int| 0 <= j < subscribers.len() ==> subscribers[j].id == before[j].id,
        decreases subscribers.len() - i,
    {
        if subscribers[i].id == subscriber_id {
            subscribers[i].status = SubscriberStatus::Confirmed;
        }
        i += 1;
    }
    *store = SubscriptionStore { subscribers, tokens };
    assert(store@.subscribers =~= confirmed(old(store)@, subscriber_id).subscribers);
}

/// Confirms the subscription that the token of `params` stands for and
/// answers 200. An unknown token fails with `UnknownToken` and changes
/// nothing. The same token can be used again: the subscriber stays
/// confirmed.
pub fn confirm(params: &Parameters, store: &mut SubscriptionStore) -> (r: Result<
    u16,
    SubscriptionConfirmError,
>)
    ensures
        match r {
            Ok(code) => {
                &&& code == OK
                &&& old(store)@.tokens.contains_key(params.token())
                &&& final(store)@ == confirmed(old(store)@, old(store)@.tokens[params.token()])
            },
            Err(e) => {
                &&& e is UnknownToken
                &&& !old(store)@.tokens.contains_key(params.token())
                &&& final(store)@ == old(store)@
            },
        },
{
    let lookup = get_subscriber_id(params.subscription_token(), store);
    match resolve_token(Ok(lookup)) {
        Ok(id) => {
            confirm_subscription(store, id);
            Ok(OK)
        },
        Err(e) => Err(e),
    }
}

/// Confirming changes the status of the subscriber confirmed and nothing
/// else: identities, emails, names, the order and the tokens stay, no
/// other subscriber's status moves, and no subscriber goes back to
/// pending.
pub proof fn lemma_confirmation_only_confirms(v: SubscriptionsView, id: SubscriberId)
    ensures
        confirmed(v, id).tokens == v.tokens,
        confirmed(v, id).subscribers.len() == v.subscribers.len(),
        forall|i: int|
            #![trigger confirmed(v, id).subscribers[i]]
            0 <= i < v.subscribers.len() ==> {
                let before = v.subscribers[i];
                let after = confirmed(v, id).subscribers[i];
                &&& after.id == before.id
                &&& after.email == before.email
                &&& after.name == before.name
                &&& before.id == id ==> after.status == SubscriberStatus::Confirmed
                &&& before.id != id ==> after.status == before.status
                &&& before.status == SubscriberStatus::Confirmed ==> after.status
                    == SubscriberStatus::Confirmed
            },
{
}

/// Confirming a subscriber again changes nothing.
pub proof fn lemma_confirmation_is_idempotent(v: SubscriptionsView, id: SubscriberId)
    ensures
        confirmed(confirmed(v, id), id) == confirmed(v, id),
{
    assert(confirmed(confirmed(v, id), id).subscribers =~= confirmed(v, id).subscribers);
}

/// A token that is known stays known and keeps its subscriber when it is
/// used: confirming by the same token a second time succeeds as the first
/// time did, and leaves the store as the first confirmation left it.
pub proof fn lemma_token_can_be_used_again(v: SubscriptionsView, token: Seq<char>)
    requires
        v.tokens.contains_key(token),
    ensures
        ({
            let once = confirmed(v, v.tokens[token]);
            &&& once.tokens.contains_key(token)
            &&& once.tokens[token] == v.tokens[token]
            &&& confirmed(once, once.tokens[token]) == once
            &&& forall|i: int|
                0 <= i < once.subscribers.len() && once.subscribers[i].id == v.tokens[token]
                    ==> once.subscribers[i].status == SubscriberStatus::Confirmed
        }),
{
    lemma_confirmation_is_idempotent(v, v.tokens[token]);
}

} // verus!
