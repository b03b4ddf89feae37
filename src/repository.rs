use vstd::prelude::*;
use crate::error::{fault_kind, message_prefix, qualified_message, ErrorKind, RepoError, StoreFault};
use crate::object_id::{id_bytes_of, is_id_text, RecordId};
use crate::schema::Patch;

verus! {

/// What identifier text resolves to: the key it denotes, or a client error.
pub open spec fn key_of(text: Seq<char>) -> Result<Seq<u8>, ErrorKind> {
    if is_id_text(text) {
        Ok(id_bytes_of(text))
    } else {
        Err(ErrorKind::ClientError)
    }
}

/// The outcome of an insertion, given the store's reply.
pub open spec fn created_outcome<K>(reply: Result<K, StoreFault>) -> Result<K, ErrorKind> {
    match reply {
        Ok(id) => Ok(id),
        Err(f) => Err(fault_kind(f)),
    }
}

/// The outcome of listing a collection, given the store's reply.
pub open spec fn listed_outcome<T>(reply: Result<Vec<T>, StoreFault>) -> Result<Vec<T>, ErrorKind> {
    match reply {
        Ok(v) => Ok(v),
        Err(_) => Err(ErrorKind::ServerError),
    }
}

/// The outcome of a lookup by key, given the store's reply.
pub open spec fn fetched_outcome<T>(reply: Result<Option<T>, StoreFault>) -> Result<T, ErrorKind> {
    match reply {
        Ok(Some(r)) => Ok(r),
        Ok(None) => Err(ErrorKind::NotFound),
        Err(f) => Err(fault_kind(f)),
    }
}

/// What an update request resolves to before the store is contacted.
pub open spec fn update_target<T, U: Patch<T>>(text: Seq<char>, fields: U) -> Result<Seq<u8>, ErrorKind> {
    if !is_id_text(text) {
        Err(ErrorKind::ClientError)
    } else if fields.spec_is_empty() {
        Err(ErrorKind::ClientError)
    } else {
        Ok(id_bytes_of(text))
    }
}

/// The outcome of an update, given the store's count of matched records.
pub open spec fn updated_outcome(reply: Result<u64, StoreFault>) -> Result<u64, ErrorKind> {
    match reply {
        Ok(n) => if n == 0 { Err(ErrorKind::NotFound) } else { Ok(n) },
        Err(f) => Err(fault_kind(f)),
    }
}

/// The outcome of a deletion, given the store's count of deleted records.
pub open spec fn deleted_outcome(reply: Result<u64, StoreFault>) -> Result<u64, ErrorKind> {
    match reply {
        Ok(n) => if n == 0 { Err(ErrorKind::NotFound) } else { Ok(n) },
        Err(_) => Err(ErrorKind::ServerError),
    }
}

/// The binding of one resource to its store collection, named after it.
///
/// Each operation is split at its store call: the part before it resolves the
/// request (and may reject it without contacting the store), the part after it
/// turns the store's reply into the operation's outcome.
#[derive(Clone, Debug, PartialEq, Eq)]
pub struct MongoDB {
    pub name: String,
}

impl MongoDB {
    /// Binds the collection `collection`.
    pub fn init(collection: &str) -> (r: MongoDB)
        ensures
            r.name@ == collection@,
    {
        MongoDB { name: collection.to_string() }
    }

    /// Whether `e` is the error of `kind` whose message is `detail` about
    /// this collection.
    pub open spec fn reports(self, e: RepoError, kind: ErrorKind, detail: Seq<char>) -> bool {
        e.kind == kind && e.message@ == message_prefix(self.name@) + detail
    }

    /// Whether `e` reports the store fault `f`.
    pub open spec fn reports_fault(self, e: RepoError, kind: ErrorKind, f: StoreFault) -> bool {
        self.reports(e, kind, f.text@)
    }

    /// The error of `kind` whose message is `detail` about this collection.
    pub fn report(&self, kind: ErrorKind, detail: &str) -> (e: RepoError)
        ensures
            self.reports(e, kind, detail@),
    {
        RepoError { kind, message: qualified_message(self.name.as_str(), detail) }
    }

    /// Resolves identifier text to the key it denotes.
    pub fn parse_id(&self, id: &str) -> (r: Result<RecordId, RepoError>)
        ensures
            kind_of_id(r) == key_of(id@),
            r matches Err(e) ==> self.reports(e, ErrorKind::ClientError, "Invalid ID"@),
    {
        proof {
            reveal_strlit("Invalid ID");
        }
        match RecordId::parse(id) {
            Some(key) => Ok(key),
            None => Err(self.report(ErrorKind::ClientError, "Invalid ID")),
        }
    }

    /// The outcome of inserting a record, given the store's reply: the
    /// identifier it assigned.
    pub fn create_record<K>(&self, reply: Result<K, StoreFault>) -> (r: Result<K, RepoError>)
        ensures
            crate::error::kind_of(r) == created_outcome(reply),
            r matches Err(e) ==> (reply matches Err(f) && self.reports_fault(e, fault_kind(f), f)),
    {
        match reply {
            Ok(id) => Ok(id),
            Err(f) => Err(self.fault(f)),
        }
    }

    /// The outcome of listing every record, given the store's reply.
    pub fn get_all_record<T>(&self, reply: Result<Vec<T>, StoreFault>) -> (r: Result<Vec<T>, RepoError>)
        ensures
            crate::error::kind_of(r) == listed_outcome(reply),
            r matches Err(e) ==> (reply matches Err(f) && self.reports_fault(e, ErrorKind::ServerError, f)),
    {
        match reply {
            Ok(v) => Ok(v),
            Err(f) => Err(self.report(ErrorKind::ServerError, f.text.as_str())),
        }
    }

    /// The outcome of a lookup, given the store's reply.
    pub fn get_record<T>(&self, reply: Result<Option<T>, StoreFault>) -> (r: Result<T, RepoError>)
        ensures
            crate::error::kind_of(r) == fetched_outcome(reply),
            reply matches Ok(None) ==> (r matches Err(e) && self.reports(e, ErrorKind::NotFound, "ID not found"@)),
            reply matches Err(f) ==> (r matches Err(e) && self.reports_fault(e, fault_kind(f), f)),
    {
        proof {
            reveal_strlit("ID not found");
        }
        match reply {
            Ok(Some(rec)) => Ok(rec),
            Ok(None) => Err(self.report(ErrorKind::NotFound, "ID not found")),
            Err(f) => Err(self.fault(f)),
        }
    }

    /// Resolves an update request to the key of the record to update: the
    /// identifier must parse and at least one field must be present.
    pub fn update_request<T, U: Patch<T>>(&self, id: &str, fields: &U) -> (r: Result<RecordId, RepoError>)
        ensures
            kind_of_id(r) == update_target::<T, U>(id@, *fields),
            !is_id_text(id@) ==> (r matches Err(e) && self.reports(e, ErrorKind::ClientError, "Invalid ID"@)),
            is_id_text(id@) && fields.spec_is_empty() ==> (r matches Err(e)
                && self.reports(e, ErrorKind::ClientError, "No schema data fields to update"@)),
    {
        proof {
            reveal_strlit("No schema data fields to update");
        }
        let key = self.parse_id(id)?;
        if fields.is_empty() {
            return Err(self.report(ErrorKind::ClientError, "No schema data fields to update"));
        }
        Ok(key)
    }

    /// The outcome of an update, given the store's count of matched records.
    pub fn update_record(&self, reply: Result<u64, StoreFault>) -> (r: Result<u64, RepoError>)
        ensures
            crate::error::kind_of(r) == updated_outcome(reply),
            reply == Ok::<u64, StoreFault>(0) ==> (r matches Err(e) && self.reports(e, ErrorKind::NotFound, "ID not found"@)),
            reply matches Err(f) ==> (r matches Err(e) && self.reports_fault(e, fault_kind(f), f)),
    {
        proof {
            reveal_strlit("ID not found");
        }
        match reply {
            Ok(n) => if n == 0 {
                Err(self.report(ErrorKind::NotFound, "ID not found"))
            } else {
                Ok(n)
            },
            Err(f) => Err(self.fault(f)),
        }
    }

    /// The outcome of a deletion, given the store's count of deleted records.
    pub fn delete_record(&self, reply: Result<u64, StoreFault>) -> (r: Result<u64, RepoError>)
        ensures
            crate::error::kind_of(r) == deleted_outcome(reply),
            reply == Ok::<u64, StoreFault>(0) ==> (r matches Err(e) && self.reports(e, ErrorKind::NotFound, "ID not found"@)),
            reply matches Err(f) ==> (r matches Err(e) && self.reports_fault(e, ErrorKind::ServerError, f)),
    {
        proof {
            reveal_strlit("ID not found");
        }
        match reply {
            Ok(n) => if n == 0 {
                Err(self.report(ErrorKind::NotFound, "ID not found"))
            } else {
                Ok(n)
            },
            Err(f) => Err(self.report(ErrorKind::ServerError, f.text.as_str())),
        }
    }

    fn fault(&self, f: StoreFault) -> (e: RepoError)
        ensures
            self.reports_fault(e, fault_kind(f), f),
    {
        let kind = if f.invalid_argument { ErrorKind::ClientError } else { ErrorKind::ServerError };
        self.report(kind, f.text.as_str())
    }
}

/// An identifier outcome seen as the key it resolved to.
pub open spec fn kind_of_id(r: Result<RecordId, RepoError>) -> Result<Seq<u8>, ErrorKind> {
    match r {
        Ok(id) => Ok(id.bytes@),
        Err(e) => Err(e.kind),
    }
}

} // verus!
