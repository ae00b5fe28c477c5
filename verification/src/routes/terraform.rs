//! What each request is answered with, decided from what the tables hold.
//!
//! Every handler comes twice. The decisions stand alone, as functions from
//! what the database returned to the answer, for a caller that talks to a
//! database of its own between them. `get`, `post` and `delete` put them
//! together over the store of this crate.
use crate::db::terraform::{MaybeConflictError, TerraformLockRow, TerraformQuery, TerraformRow};
use crate::error::{fails, DatabaseError, HttpError};
use crate::json::{as_str, json_member, json_parsed, json_str, json_text, member, parse, to_text};
use crate::text::same_text;
use vstd::prelude::*;

verus! {

/// The lock id a client presents with a write.
#[derive(Debug, PartialEq)]
pub struct LockQuery {
    pub id: String,
}

impl LockQuery {
    /// The query parameters `id` and `ID` both name the lock id.
    pub open spec fn names_lock_id(key: Seq<char>) -> bool {
        key == "id"@ || key == "ID"@
    }

    /// Parameter `i` of `pairs` exists and names the lock id.
    pub open spec fn lock_id_at(pairs: Seq<(String, String)>, i: int) -> bool {
        0 <= i < pairs.len() && Self::names_lock_id(pairs[i].0@)
    }

    /// The lock id that the query parameters `pairs` present: the value of
    /// the one parameter that names it. A query that names none, or names
    /// it twice, presents none.
    pub open spec fn presented(pairs: Seq<(String, String)>) -> Option<Seq<char>> {
        if exists|i: int|
            Self::lock_id_at(pairs, i) && forall|j: int| Self::lock_id_at(pairs, j) ==> j == i {
            let i = choose|i: int|
                Self::lock_id_at(pairs, i) && forall|j: int| Self::lock_id_at(pairs, j) ==> j == i;
            Some(pairs[i].1@)
        } else {
            None
        }
    }

    /// Reads the lock id out of the decoded parameters of a query string,
    /// each a name and a value. A query that presents no lock id is a bad
    /// request.
    pub fn from_pairs(pairs: &Vec<(String, String)>) -> (r: Result<LockQuery, HttpError>)
        ensures
            match Self::presented(pairs@) {
                Some(id) => r matches Ok(query) && query.id@ == id,
                None => fails(r, 400, "Bad Request"@),
            },
    {
        let mut found: Option<usize> = None;
        let mut i: usize = 0;
        while i < pairs.len()
            invariant
                i <= pairs.len(),
                match found {
                    Some(at) => at < i && Self::lock_id_at(pairs@, at as int) && forall|j: int|
                        0 <= j < i && Self::lock_id_at(pairs@, j) ==> j == at,
                    None => forall|j: int| 0 <= j < i ==> !Self::lock_id_at(pairs@, j),
                },
            decreases pairs.len() - i,
        {
            let key = pairs[i].0.as_str();
            if same_text(key, "id") || same_text(key, "ID") {
                if found.is_some() {
                    assert(Self::lock_id_at(pairs@, i as int));
                    return Err(HttpError::bad_request(None));
                }
                found = Some(i);
            }
            i += 1;
        }
        match found {
            Some(at) => {
                assert(forall|j: int| Self::lock_id_at(pairs@, j) ==> j == at);
                Ok(LockQuery { id: pairs[at].1.clone() })
            },
            None => Err(HttpError::bad_request(None)),
        }
    }
}

/// What an answer carries.
#[derive(Debug, PartialEq)]
pub enum Body {
    /// Nothing.
    Empty,
    /// A JSON document.
    Json(serde_json::Value),
    /// A text, sent as one JSON string.
    Text(String),
}

/// An answer to a request that was served: its HTTP status and what it
/// carries.
#[derive(Debug, PartialEq)]
pub struct Response {
    pub status: u16,
    pub body: Body,
}

/// Whether a write may go ahead.
#[derive(Debug, PartialEq)]
pub enum WritePermit {
    /// The client holds the lock: the text is to be stored as the state.
    Granted(String),
    /// The write is refused and answered as given; nothing is stored.
    Refused(Response),
}

/// What a client asks to lock or unlock with: the lock id read from its
/// payload, and the payload as text.
#[derive(Debug, PartialEq)]
pub struct LockClaim {
    pub lock_id: String,
    pub state: String,
}

/// `r` answers with `status` and carries `body`.
pub open spec fn answers(r: Result<Response, HttpError>, status: u16, body: Body) -> bool {
    r == Ok::<Response, HttpError>(Response { status, body })
}

/// `r` answers with `status` and the document stored as `text`, or fails
/// with the stock internal server error where `text` is no JSON document.
pub open spec fn answers_stored(
    r: Result<Response, HttpError>,
    status: u16,
    text: Seq<char>,
) -> bool {
    match json_parsed(text) {
        Some(document) => answers(r, status, Body::Json(document)),
        None => fails(r, 500, "Internal Server Error"@),
    }
}

/// `r` is the answer to a read that found `stored` as the state text.
pub open spec fn answers_read(r: Result<Response, HttpError>, stored: Option<Seq<char>>) -> bool {
    match stored {
        Some(text) => answers_stored(r, 200, text),
        None => fails(r, 404, "Not Found"@),
    }
}

/// `r` is the decision on a write that presents `presented` and carries
/// `body`, where `held` gives the lock id and the payload of the lock on
/// the resource, if it is locked.
pub open spec fn permits(
    r: Result<WritePermit, HttpError>,
    held: Option<(Seq<char>, Seq<char>)>,
    presented: Seq<char>,
    body: serde_json::Value,
) -> bool {
    match held {
        Some((lock_id, payload)) => if lock_id == presented {
            r matches Ok(WritePermit::Granted(text)) && text@ == json_text(body)
        } else {
            match json_parsed(payload) {
                Some(document) => r == Ok::<WritePermit, HttpError>(
                    WritePermit::Refused(Response { status: 409, body: Body::Json(document) }),
                ),
                None => fails(r, 500, "Internal Server Error"@),
            }
        },
        None => r == Ok::<WritePermit, HttpError>(
            WritePermit::Refused(Response { status: 409, body: Body::Empty }),
        ),
    }
}

/// The lock id that a payload names: its member `ID`, where that is a
/// string.
pub open spec fn requested_lock_id(body: serde_json::Value) -> Option<Seq<char>> {
    match json_member(body, "ID"@) {
        Some(value) => json_str(value),
        None => None,
    }
}

/// Answers with a stored document under `status`, given what the parser
/// made of the stored text: the document where it found one, the stock
/// internal server error where it did not.
pub fn document_response(
    status: u16,
    parsed: Result<serde_json::Value, serde_json::Error>,
) -> (r: Result<Response, HttpError>)
    ensures
        match parsed {
            Ok(document) => answers(r, status, Body::Json(document)),
            Err(_) => fails(r, 500, "Internal Server Error"@),
        },
{
    match parsed {
        Ok(document) => Ok(Response { status, body: Body::Json(document) }),
        Err(_) => Err(HttpError::internal_server_error(None)),
    }
}

/// Parses a stored text and answers with it under `status`.
fn stored_document(status: u16, text: &str) -> (r: Result<Response, HttpError>)
    ensures
        answers_stored(r, status, text@),
{
    document_response(status, parse(text))
}

pub struct TerraformRoute;

pub struct TerraformLockRoute;

impl TerraformRoute {
    /// Answers a read from what the state table returned for the resource:
    /// the stored document with 200, not found where there is no row, the
    /// stock internal server error where the stored text is no JSON, and
    /// the stock bad gateway where the database failed.
    pub fn read_response(fetched: Result<Option<TerraformRow>, DatabaseError>) -> (r: Result<
        Response,
        HttpError,
    >)
        ensures
            match fetched {
                Ok(Some(row)) => answers_read(r, Some(row.state@)),
                Ok(None) => answers_read(r, None),
                Err(_) => fails(r, 502, "Bad Gateway"@),
            },
    {
        match fetched {
            Ok(Some(row)) => stored_document(200, row.state.as_str()),
            Ok(None) => Err(HttpError::not_found(None)),
            Err(e) => Err(HttpError::from(e)),
        }
    }

    /// Reads the state of the resource `id`.
    pub fn get(query: &TerraformQuery, id: &str) -> (r: Result<Response, HttpError>)
        ensures
            answers_read(
                r,
                match query@.state_of(id@) {
                    Some(record) => Some(record.state),
                    None => None,
                },
            ),
    {
        Self::read_response(Ok(query.get(id)))
    }

    /// Decides whether a write presenting `lock_query` may go ahead, from
    /// what the lock table returned for the resource. It may when the
    /// resource is locked under the presented id, and `body` as text is
    /// then what is to be stored. A resource that is not locked refuses
    /// the write with an empty 409; one locked under another id refuses it
    /// with 409 and the holder's payload.
    pub fn permit(
        lock: Result<Option<TerraformLockRow>, DatabaseError>,
        lock_query: &LockQuery,
        body: &serde_json::Value,
    ) -> (r: Result<WritePermit, HttpError>)
        ensures
            match lock {
                Ok(Some(row)) => permits(r, Some((row.id@, row.state@)), lock_query.id@, *body),
                Ok(None) => permits(r, None, lock_query.id@, *body),
                Err(_) => fails(r, 502, "Bad Gateway"@),
            },
    {
        match lock {
            Ok(Some(row)) => {
                if same_text(row.id.as_str(), lock_query.id.as_str()) {
                    Ok(WritePermit::Granted(to_text(body)))
                } else {
                    match stored_document(409, row.state.as_str()) {
                        Ok(response) => Ok(WritePermit::Refused(response)),
                        Err(e) => Err(e),
                    }
                }
            },
            Ok(None) => Ok(WritePermit::Refused(Response { status: 409, body: Body::Empty })),
            Err(e) => Err(HttpError::from(e)),
        }
    }

    /// Answers a write that was permitted, from what the state table
    /// returned for the replacement: the written document with 200, or the
    /// stock bad gateway where the database failed.
    pub fn write_response(
        body: serde_json::Value,
        replaced: Result<TerraformRow, DatabaseError>,
    ) -> (r: Result<Response, HttpError>)
        ensures
            match replaced {
                Ok(_) => answers(r, 200, Body::Json(body)),
                Err(_) => fails(r, 502, "Bad Gateway"@),
            },
    {
        match replaced {
            Ok(_) => Ok(Response { status: 200, body: Body::Json(body) }),
            Err(e) => Err(HttpError::from(e)),
        }
    }

    /// Replaces the state of the resource `id` with `body` at the time
    /// `at`, provided the resource is locked under the id that `lock_query`
    /// presents. A write that is refused changes nothing.
    pub fn post(
        query: &mut TerraformQuery,
        id: &str,
        lock_query: &LockQuery,
        body: serde_json::Value,
        at: chrono::NaiveDateTime,
    ) -> (r: Result<Response, HttpError>)
        ensures
            match old(query)@.lock_of(id@) {
                Some(held) if held.lock_id == lock_query.id@ => {
                    &&& answers(r, 200, Body::Json(body))
                    &&& final(query)@ == old(query)@.replaced(id@, json_text(body), at)
                },
                Some(held) => answers_stored(r, 409, held.payload) && final(query)@ == old(
                    query,
                )@,
                None => answers(r, 409, Body::Empty) && final(query)@ == old(query)@,
            },
    {
        let lock = query.get_lock_by_terraform_id(id);
        match Self::permit(Ok(lock), lock_query, &body) {
            Ok(WritePermit::Granted(text)) => {
                let row = query.create_or_replace(id, text.as_str(), at);
                Self::write_response(body, Ok(row))
            },
            Ok(WritePermit::Refused(response)) => Ok(response),
            Err(e) => Err(e),
        }
    }
}

impl TerraformLockRoute {
    /// Reads what a lock or unlock request asks for out of its payload:
    /// the lock id is the string member `ID`, the state is the payload as
    /// text. A payload without such a member is a bad request.
    pub fn claim(body: &serde_json::Value) -> (r: Result<LockClaim, HttpError>)
        ensures
            match requested_lock_id(*body) {
                Some(lock_id) => r matches Ok(claim) && claim.lock_id@ == lock_id && claim.state@
                    == json_text(*body),
                None => fails(r, 400, "Malformed Payload: Missing or malformed ID"@),
            },
    {
        let state = to_text(body);
        let lock_id = match member(body, "ID") {
            Some(value) => as_str(value),
            None => None,
        };
        Self::claim_of(lock_id, state)
    }

    /// Makes the claim of a payload whose text is `state`, given the lock
    /// id that was read from it, if any was.
    pub fn claim_of(lock_id: Option<&str>, state: String) -> (r: Result<LockClaim, HttpError>)
        ensures
            match lock_id {
                Some(lock_id) => r matches Ok(claim) && claim.lock_id@ == lock_id@ && claim.state
                    == state,
                None => fails(r, 400, "Malformed Payload: Missing or malformed ID"@),
            },
    {
        match lock_id {
            Some(lock_id) => Ok(LockClaim { lock_id: lock_id.to_owned(), state }),
            None => Err(
                HttpError::BadRequest("Malformed Payload: Missing or malformed ID".to_owned()),
            ),
        }
    }

    /// Answers an attempt to lock from what the store decided: the
    /// request's own payload with 200 where the lock was granted, the
    /// holder's payload with 409 where another holds it, and the stock bad
    /// gateway where the database failed.
    pub fn lock_response(
        body: serde_json::Value,
        outcome: Result<TerraformLockRow, MaybeConflictError>,
    ) -> (r: Result<Response, HttpError>)
        ensures
            match outcome {
                Ok(_) => answers(r, 200, Body::Json(body)),
                Err(MaybeConflictError::Conflict(row)) => answers_stored(r, 409, row.state@),
                Err(MaybeConflictError::Error(_)) => fails(r, 502, "Bad Gateway"@),
            },
    {
        match outcome {
            Ok(_) => Ok(Response { status: 200, body: Body::Json(body) }),
            Err(MaybeConflictError::Conflict(row)) => stored_document(409, row.state.as_str()),
            Err(MaybeConflictError::Error(e)) => Err(HttpError::from(e)),
        }
    }

    /// Locks the resource `id` at the time `at` for the client whose
    /// payload is `body`.
    pub fn post(
        query: &mut TerraformQuery,
        id: &str,
        body: serde_json::Value,
        at: chrono::NaiveDateTime,
    ) -> (r: Result<Response, HttpError>)
        ensures
            match requested_lock_id(body) {
                Some(lock_id) => {
                    &&& final(query)@.lock_of(id@) matches Some(held)
                    &&& final(query)@ == old(query)@.acquired(id@, lock_id, json_text(body), at)
                    &&& if held.lock_id == lock_id {
                        answers(r, 200, Body::Json(body))
                    } else {
                        answers_stored(r, 409, held.payload)
                    }
                },
                None => final(query)@ == old(query)@ && fails(
                    r,
                    400,
                    "Malformed Payload: Missing or malformed ID"@,
                ),
            },
    {
        match Self::claim(&body) {
            Ok(claim) => {
                let outcome = query.lock(id, claim.lock_id.as_str(), claim.state.as_str(), at);
                Self::lock_response(body, outcome)
            },
            Err(e) => Err(e),
        }
    }

    /// Answers a release from what the lock table returned: 200 with the
    /// request's payload as text, or the stock bad gateway where the
    /// database failed.
    pub fn unlock_response(state: String, released: Result<(), DatabaseError>) -> (r: Result<
        Response,
        HttpError,
    >)
        ensures
            match released {
                Ok(_) => answers(r, 200, Body::Text(state)),
                Err(_) => fails(r, 502, "Bad Gateway"@),
            },
    {
        match released {
            Ok(_) => Ok(Response { status: 200, body: Body::Text(state) }),
            Err(e) => Err(HttpError::from(e)),
        }
    }

    /// Releases the lock on the resource `id` if it is held under the lock
    /// id of the payload `body`. Whether or not a lock went, the answer is
    /// 200.
    pub fn delete(query: &mut TerraformQuery, id: &str, body: serde_json::Value) -> (r: Result<
        Response,
        HttpError,
    >)
        ensures
            match requested_lock_id(body) {
                Some(lock_id) => {
                    &&& final(query)@ == old(query)@.released(id@, lock_id)
                    &&& r matches Ok(response)
                    &&& response.status == 200
                    &&& response.body matches Body::Text(text)
                    &&& text@ == json_text(body)
                },
                None => final(query)@ == old(query)@ && fails(
                    r,
                    400,
                    "Malformed Payload: Missing or malformed ID"@,
                ),
            },
    {
        match Self::claim(&body) {
            Ok(claim) => {
                query.unlock(id, claim.lock_id.as_str());
                Self::unlock_response(claim.state, Ok(()))
            },
            Err(e) => Err(e),
        }
    }
}

} // verus!
