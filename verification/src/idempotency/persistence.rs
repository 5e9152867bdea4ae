//! The saved responses: what is kept of a finished command, and its replay.

use super::key::IdempotencyKey;
use super::response::{clone_headers, is_status_code, HeaderPair, Response, ResponseView};
use vstd::prelude::*;

verus! {

/// The identity of the caller on whose behalf a command runs.
#[derive(Debug, Clone, Copy, PartialEq, Eq, Structural)]
pub struct UserId(pub u128);

/// Why the store could not answer.
#[derive(Debug, Clone, Copy, PartialEq, Eq, Structural)]
pub enum StoreError {
    /// A saved response holds a number that is no status code.
    InvalidStatusCode,
    /// A response is already saved under this caller and key.
    DuplicateKey,
}

impl StoreError {
    /// The error in words.
    pub fn message(&self) -> (m: String)
        ensures
            m@ == match *self {
                StoreError::InvalidStatusCode => "The saved response has an invalid status code"@,
                StoreError::DuplicateKey => "A response is already saved for this idempotency key"@,
            },
    {
        match self {
            StoreError::InvalidStatusCode => {
                "The saved response has an invalid status code".to_owned()
            },
            StoreError::DuplicateKey => {
                "A response is already saved for this idempotency key".to_owned()
            },
        }
    }
}

/// What is kept of a response.
pub struct SavedResponseView {
    pub status_code: i16,
    pub headers: Seq<(Seq<char>, Seq<u8>)>,
    pub body: Seq<u8>,
    pub created_at: i64,
}

/// What is kept of `response` when it is saved at the time `created_at`.
pub open spec fn saved_of(response: ResponseView, created_at: i64) -> SavedResponseView {
    SavedResponseView {
        status_code: response.status as i16,
        headers: response.headers,
        body: response.body,
        created_at,
    }
}

/// The response that a saved one replays as, if its status is a status
/// code.
pub open spec fn replay_of(saved: SavedResponseView) -> Option<ResponseView> {
    if is_status_code(saved.status_code as int) {
        Some(
            ResponseView {
                status: saved.status_code as u16,
                headers: saved.headers,
                body: saved.body,
            },
        )
    } else {
        None
    }
}

/// A saved response: the status, the header lines in order with their raw
/// values, the body, and the time of saving.
#[derive(Debug)]
pub struct SavedResponse {
    pub status_code: i16,
    pub headers: Vec<HeaderPair>,
    pub body: Vec<u8>,
    pub created_at: i64,
}

impl View for SavedResponse {
    type V = SavedResponseView;

    open spec fn view(&self) -> SavedResponseView {
        SavedResponseView {
            status_code: self.status_code,
            headers: self.headers.deep_view(),
            body: self.body@,
            created_at: self.created_at,
        }
    }
}

impl Clone for SavedResponse {
    fn clone(&self) -> (copy: Self)
        ensures
            copy@ == self@,
    {
        SavedResponse {
            status_code: self.status_code,
            headers: clone_headers(&self.headers),
            body: self.body.clone(),
            created_at: self.created_at,
        }
    }
}

impl SavedResponse {
    /// What is kept of `response`: status, headers and body verbatim.
    pub fn record(response: &Response, created_at: i64) -> (saved: SavedResponse)
        ensures
            saved@ == saved_of(response@, created_at),
            replay_of(saved@) == Some(response@),
    {
        let status = response.status();
        SavedResponse {
            status_code: status as i16,
            headers: clone_headers(response.headers()),
            body: response.body().clone(),
            created_at,
        }
    }

    /// The response as it was when saved. Fails exactly when the saved
    /// status is no status code.
    pub fn replay(&self) -> (r: Result<Response, StoreError>)
        ensures
            match r {
                Ok(response) => replay_of(self@) == Some(response@),
                Err(e) => replay_of(self@) is None && e == StoreError::InvalidStatusCode,
            },
    {
        if self.status_code < 0 {
            return Err(StoreError::InvalidStatusCode);
        }
        let status = self.status_code as u16;
        match Response::new(status, clone_headers(&self.headers), self.body.clone()) {
            Some(response) => Ok(response),
            None => Err(StoreError::InvalidStatusCode),
        }
    }
}

/// One saved response with the caller and key it belongs to.
struct StoredRow {
    user_id: UserId,
    idempotency_key: String,
    response: SavedResponse,
}

impl StoredRow {
    spec fn key(self) -> (UserId, Seq<char>) {
        (self.user_id, self.idempotency_key@)
    }
}

/// The table that a sequence of rows stands for.
spec fn table(rows: Seq<StoredRow>) -> Map<(UserId, Seq<char>), SavedResponseView>
    decreases rows.len(),
{
    if rows.len() == 0 {
        Map::empty()
    } else {
        table(rows.drop_last()).insert(rows.last().key(), rows.last().response@)
    }
}

spec fn distinct_keys(rows: Seq<StoredRow>) -> bool {
    forall|i: int, j: int| 0 <= i < j < rows.len() ==> rows[i].key() != rows[j].key()
}

proof fn lemma_table_domain(rows: Seq<StoredRow>, k: (UserId, Seq<char>))
    ensures
        table(rows).contains_key(k) <==> exists|i: int| 0 <= i < rows.len() && rows[i].key() == k,
    decreases rows.len(),
{
    if rows.len() > 0 {
        lemma_table_domain(rows.drop_last(), k);
        if table(rows).contains_key(k) {
            if rows.last().key() == k {
                assert(rows[rows.len() - 1].key() == k);
            } else {
                let i = choose|i: int| 0 <= i < rows.drop_last().len() && rows.drop_last()[i].key() == k;
                assert(rows[i].key() == k);
            }
        }
        if exists|i: int| 0 <= i < rows.len() && rows[i].key() == k {
            let i = choose|i: int| 0 <= i < rows.len() && rows[i].key() == k;
            if i < rows.len() - 1 {
                assert(rows.drop_last()[i].key() == k);
            }
        }
    }
}

proof fn lemma_table_row(rows: Seq<StoredRow>, i: int)
    requires
        distinct_keys(rows),
        0 <= i < rows.len(),
    ensures
        table(rows).contains_key(rows[i].key()),
        table(rows)[rows[i].key()] == rows[i].response@,
    decreases rows.len(),
{
    if i < rows.len() - 1 {
        assert(rows.drop_last()[i] == rows[i]);
        lemma_table_row(rows.drop_last(), i);
    }
}

/// The saved responses, each under the caller and the key it was saved
/// for. Callers never share an entry: the caller is part of what an entry
/// is found by.
pub struct ResponseStore {
    rows: Vec<StoredRow>,
}

impl View for ResponseStore {
    type V = Map<(UserId, Seq<char>), SavedResponseView>;

    closed spec fn view(&self) -> Map<(UserId, Seq<char>), SavedResponseView> {
        table(self.rows@)
    }
}

impl ResponseStore {
    #[verifier::type_invariant]
    spec fn well_formed(&self) -> bool {
        &&& distinct_keys(self.rows@)
        &&& forall|i: int| 0 <= i < self.rows.len() ==> replay_of(#[trigger] self.rows[i].response@) is Some
    }

    /// A store that holds nothing.
    pub fn new() -> (store: ResponseStore)
        ensures
            store@ == Map::<(UserId, Seq<char>), SavedResponseView>::empty(),
    {
        ResponseStore { rows: Vec::new() }
    }

    /// The position of the row saved under the caller and key, if any.
    fn find(&self, user_id: UserId, key: &String) -> (found: Option<usize>)
        ensures
            match found {
                Some(i) => i < self.rows.len() && self.rows[i as int].key() == (user_id, key@),
                None => forall|i: int| 0 <= i < self.rows.len() ==> self.rows[i].key() != (user_id, key@),
            },
    {
        let mut i: usize = 0;
        while i < self.rows.len()
            invariant
                i <= self.rows.len(),
                forall|j: int| 0 <= j < i ==> self.rows[j].key() != (user_id, key@),
            decreases self.rows.len() - i,
        {
            if self.rows[i].user_id == user_id && self.rows[i].idempotency_key == *key {
                return Some(i);
            }
            i += 1;
        }
        None
    }
}

/// Looks up the response saved for the caller under the key. Nothing
/// changes, and the lookup never fails: the answer is `None` exactly when
/// nothing was saved, and else the response as it was saved.
pub fn get_saved_response(
    user_id: UserId,
    idempotency_key: &IdempotencyKey,
    store: &ResponseStore,
) -> (r: Result<Option<Response>, StoreError>)
    ensures
        match r {
            Ok(None) => !store@.contains_key((user_id, idempotency_key@)),
            Ok(Some(response)) => store@.contains_key((user_id, idempotency_key@)) && replay_of(
                store@[(user_id, idempotency_key@)],
            ) == Some(response@),
            Err(_) => false,
        },
{
    proof {
        use_type_invariant(store);
        lemma_table_domain(store.rows@, (user_id, idempotency_key@));
    }
    match store.find(user_id, idempotency_key.as_string()) {
        None => Ok(None),
        Some(i) => {
            proof {
                lemma_table_row(store.rows@, i as int);
            }
            match store.rows[i].response.replay() {
                Ok(response) => Ok(Some(response)),
                Err(e) => Err(e),
            }
        },
    }
}

/// Saves `http_response` for the caller under the key, with the time of
/// saving, and hands the response back for the request that produced it.
/// Where a response is already saved under the caller and key, nothing
/// changes and the call fails.
pub fn save_response(
    user_id: UserId,
    idempotency_key: &IdempotencyKey,
    store: &mut ResponseStore,
    http_response: Response,
    created_at: i64,
) -> (r: Result<Response, StoreError>)
    ensures
        match r {
            Ok(response) => {
                &&& !old(store)@.contains_key((user_id, idempotency_key@))
                &&& final(store)@ == old(store)@.insert(
                    (user_id, idempotency_key@),
                    saved_of(http_response@, created_at),
                )
                &&& response@ == http_response@
            },
            Err(e) => {
                &&& old(store)@.contains_key((user_id, idempotency_key@))
                &&& final(store)@ == old(store)@
                &&& e == StoreError::DuplicateKey
            },
        },
{
    proof {
        use_type_invariant(&*store);
        lemma_table_domain(store.rows@, (user_id, idempotency_key@));
    }
    if store.find(user_id, idempotency_key.as_string()).is_some() {
        return Err(StoreError::DuplicateKey);
    }
    let row = StoredRow {
        user_id,
        idempotency_key: idempotency_key.as_string().clone(),
        response: SavedResponse::record(&http_response, created_at),
    };
    let mut taken = ResponseStore::new();
    std::mem::swap(store, &mut taken);
    let mut rows = taken.rows;
    let ghost before = rows@;
    rows.push(row);
    proof {
        assert(rows@.drop_last() == before);
    }
    *store = ResponseStore { rows };
    Ok(http_response)
}

/// Saving a response and replaying it gives the response back, byte for
/// byte, whenever it was saved.
pub proof fn lemma_replay_of_saved(response: ResponseView, created_at: i64)
    requires
        is_status_code(response.status as int),
    ensures
        replay_of(saved_of(response, created_at)) == Some(response),
{
}

/// Callers never share an entry: saving for one caller under a key
/// neither makes nor changes an entry of another caller under that key,
/// nor an entry of the same caller under another key.
pub proof fn lemma_entries_are_caller_scoped(
    store: Map<(UserId, Seq<char>), SavedResponseView>,
    saved: SavedResponseView,
    user_id: UserId,
    key: Seq<char>,
    other_user: UserId,
    other_key: Seq<char>,
)
    requires
        other_user != user_id || other_key != key,
    ensures
        ({
            let after = store.insert((user_id, key), saved);
            &&& after.contains_key((other_user, other_key)) == store.contains_key(
                (other_user, other_key),
            )
            &&& store.contains_key((other_user, other_key)) ==> after[(other_user, other_key)]
                == store[(other_user, other_key)]
        }),
{
}

} // verus!
