//! Request handling shared by every resource: the path identifier is checked,
//! the repository outcome around each store call is decided, and the result
//! becomes a status code with a record, a list, an identifier or a message.
use vstd::prelude::*;
use crate::error::{fault_kind, message_prefix, ErrorKind, RepoError, StoreFault};
use crate::object_id::{is_id_text, RecordId};
use crate::repository::{
    created_outcome, deleted_outcome, fetched_outcome, key_of, kind_of_id, listed_outcome,
    update_target, updated_outcome, MongoDB,
};
use crate::schema::Patch;

verus! {

/// What a response carries.
#[derive(Clone, Debug, PartialEq, Eq)]
pub enum Body<T> {
    /// One record.
    Record(T),
    /// Every record of a collection.
    Records(Vec<T>),
    /// The identifier of a record just created.
    Id(String),
    /// The store's own rendering of an assigned identifier that is not a key.
    Inserted(String),
    /// A message, a confirmation or a token.
    Text(String),
}

/// The identifier the store assigned to an inserted record: a key, or, where
/// the store assigned something else, its own rendering of it.
#[derive(Clone, Debug, PartialEq, Eq)]
pub enum InsertedId {
    Key(RecordId),
    Other(String),
}

/// An HTTP response: its status code and what it carries.
#[derive(Clone, Debug, PartialEq, Eq)]
pub struct Response<T> {
    pub status: u16,
    pub body: Body<T>,
}

/// The response that reports `e`: its kind's status, its message verbatim.
pub open spec fn error_response<T>(e: RepoError) -> Response<T> {
    Response { status: e.kind.spec_status(), body: Body::Text(e.message) }
}

/// Whether `r` has status `status` and carries the message `text`.
pub open spec fn says<T>(r: Response<T>, status: u16, text: Seq<char>) -> bool {
    r.status == status && (r.body matches Body::Text(m) && m@ == text)
}

/// Whether `r` has status `status` and a message about the collection of `db`.
pub open spec fn is_failure<T>(db: MongoDB, r: Response<T>, status: u16) -> bool {
    r.status == status && (r.body matches Body::Text(m) && message_prefix(db.name@).is_prefix_of(m@))
}

/// The status code of an outcome: 200 on success, else its kind's status.
pub open spec fn status_of<V>(r: Result<V, ErrorKind>) -> u16 {
    match r {
        Ok(_) => 200,
        Err(k) => k.spec_status(),
    }
}

/// The response that reports a repository error.
pub fn error_reply<T>(e: RepoError) -> (r: Response<T>)
    ensures
        r == error_response::<T>(e),
{
    let status = e.kind.status_code();
    Response { status, body: Body::Text(e.message) }
}

/// The response that reports an error of `kind` whose message is `detail`
/// about the collection of `db`.
pub fn failure<T>(db: &MongoDB, kind: ErrorKind, detail: &str) -> (r: Response<T>)
    ensures
        says(r, kind.spec_status(), message_prefix(db.name@) + detail@),
        is_failure(*db, r, kind.spec_status()),
{
    let r = error_reply(db.report(kind, detail));
    proof {
        let p = message_prefix(db.name@);
        assert((p + detail@).subrange(0, p.len() as int) =~= p);
    }
    r
}

/// Replies to a create, given the store's reply to the insertion: 200 with
/// the identifier the store assigned.
pub fn create<T>(db: &MongoDB, reply: Result<InsertedId, StoreFault>) -> (r: Response<T>)
    ensures
        r.status == status_of(created_outcome(reply)),
        reply matches Ok(InsertedId::Key(id)) ==> (r.body matches Body::Id(t) && t@ == id.text()),
        reply matches Ok(InsertedId::Other(t)) ==> r.body == Body::<T>::Inserted(t),
        reply matches Err(f) ==> says(r, fault_kind(f).spec_status(), message_prefix(db.name@) + f.text@),
{
    match db.create_record(reply) {
        Ok(InsertedId::Key(id)) => Response { status: 200, body: Body::Id(id.to_text()) },
        Ok(InsertedId::Other(t)) => Response { status: 200, body: Body::Inserted(t) },
        Err(e) => error_reply(e),
    }
}

/// Replies to a listing, given the store's reply: 200 with every record.
pub fn get_all<T>(db: &MongoDB, reply: Result<Vec<T>, StoreFault>) -> (r: Response<T>)
    ensures
        r.status == status_of(listed_outcome(reply)),
        reply matches Ok(v) ==> r.body == Body::Records(v),
        reply matches Err(f) ==> says(r, 500, message_prefix(db.name@) + f.text@),
{
    match db.get_all_record(reply) {
        Ok(v) => Response { status: 200, body: Body::Records(v) },
        Err(e) => error_reply(e),
    }
}

/// Resolves the identifier of a request path: one that is empty or does not
/// parse is refused with the repository's client error, before any store call.
pub fn path_id<T>(db: &MongoDB, id: &str) -> (r: Result<RecordId, Response<T>>)
    ensures
        r matches Ok(key) ==> key_of(id@) == Ok::<Seq<u8>, ErrorKind>(key.bytes@),
        r.is_ok() <==> key_of(id@).is_ok(),
        !is_id_text(id@) ==> (r matches Err(resp) && says(
            resp,
            400,
            message_prefix(db.name@) + "Invalid ID"@,
        )),
{
    match db.parse_id(id) {
        Ok(key) => Ok(key),
        Err(e) => Err(error_reply(e)),
    }
}

/// Replies to a lookup, given the store's reply: 200 with the record, 404
/// when none matched.
pub fn get<T>(db: &MongoDB, reply: Result<Option<T>, StoreFault>) -> (r: Response<T>)
    ensures
        r.status == status_of(fetched_outcome(reply)),
        reply matches Ok(Some(rec)) ==> r.body == Body::Record(rec),
        reply matches Ok(None) ==> says(r, 404, message_prefix(db.name@) + "ID not found"@),
        reply matches Err(f) ==> says(r, fault_kind(f).spec_status(), message_prefix(db.name@) + f.text@),
{
    match db.get_record(reply) {
        Ok(rec) => Response { status: 200, body: Body::Record(rec) },
        Err(e) => error_reply(e),
    }
}

/// Resolves an update request before the store is contacted: a path
/// identifier that is empty or does not parse, or an empty field set, is
/// refused with 400.
pub fn update_target_of<T, U: Patch<T>>(db: &MongoDB, id: &str, fields: &U) -> (r: Result<RecordId, Response<T>>)
    ensures
        r matches Ok(key) ==> update_target::<T, U>(id@, *fields) == Ok::<Seq<u8>, ErrorKind>(key.bytes@),
        r.is_ok() <==> update_target::<T, U>(id@, *fields).is_ok(),
        r matches Err(resp) ==> resp.status == 400,
        !is_id_text(id@) ==> (r matches Err(resp) && says(
            resp,
            400,
            message_prefix(db.name@) + "Invalid ID"@,
        )),
        is_id_text(id@) && fields.spec_is_empty() ==> (r matches Err(resp) && says(
            resp,
            400,
            message_prefix(db.name@) + "No schema data fields to update"@,
        )),
{
    match db.update_request(id, fields) {
        Ok(key) => Ok(key),
        Err(e) => {
            assert(kind_of_id(Err(e)) == update_target::<T, U>(id@, *fields));
            Err(error_reply(e))
        }
    }
}

/// Replies to an update, given the store's count of matched records: `None`
/// when a record matched and the updated record is to be fetched and
/// returned, else the response that ends the request.
pub fn update<T>(db: &MongoDB, reply: Result<u64, StoreFault>) -> (r: Option<Response<T>>)
    ensures
        r.is_none() <==> updated_outcome(reply).is_ok(),
        r matches Some(resp) ==> resp.status == status_of(updated_outcome(reply)),
        reply == Ok::<u64, StoreFault>(0) ==> (r matches Some(resp) && says(
            resp,
            404,
            message_prefix(db.name@) + "ID not found"@,
        )),
        reply matches Err(f) ==> (r matches Some(resp) && says(
            resp,
            fault_kind(f).spec_status(),
            message_prefix(db.name@) + f.text@,
        )),
{
    match db.update_record(reply) {
        Ok(_) => None,
        Err(e) => Some(error_reply(e)),
    }
}

/// Replies to a deletion, given the store's count of deleted records: 200
/// with a confirmation, 404 when none matched.
pub fn delete<T>(db: &MongoDB, reply: Result<u64, StoreFault>) -> (r: Response<T>)
    ensures
        r.status == status_of(deleted_outcome(reply)),
        deleted_outcome(reply).is_ok() ==> says(r, 200, "Successfully deleted!"@),
        reply == Ok::<u64, StoreFault>(0) ==> says(r, 404, message_prefix(db.name@) + "ID not found"@),
        reply matches Err(f) ==> says(r, 500, message_prefix(db.name@) + f.text@),
{
    proof {
        reveal_strlit("Successfully deleted!");
    }
    match db.delete_record(reply) {
        Ok(_) => Response { status: 200, body: Body::Text("Successfully deleted!".to_string()) },
        Err(e) => error_reply(e),
    }
}

} // verus!
