use vstd::prelude::*;
use vstd::string::*;

verus! {

/// The outward error kinds that every failure collapses to.
#[derive(Clone, Copy, Debug, PartialEq, Eq, Structural)]
pub enum ErrorKind {
    /// Malformed input: a bad identifier, an empty body, a bad argument.
    ClientError,
    /// Credentials that do not match.
    Unauthorized,
    /// A well-formed request that matched no record.
    NotFound,
    /// Everything else: connectivity, internal store faults, primitive failures.
    ServerError,
}

impl ErrorKind {
    pub open spec fn spec_status(self) -> u16 {
        match self {
            ErrorKind::ClientError => 400,
            ErrorKind::Unauthorized => 401,
            ErrorKind::NotFound => 404,
            ErrorKind::ServerError => 500,
        }
    }

    /// The HTTP status code of this kind.
    pub fn status_code(&self) -> (r: u16)
        ensures
            r == self.spec_status(),
    {
        match self {
            ErrorKind::ClientError => 400,
            ErrorKind::Unauthorized => 401,
            ErrorKind::NotFound => 404,
            ErrorKind::ServerError => 500,
        }
    }
}

/// A failure of a repository operation: its kind and a human-readable message.
#[derive(Clone, Debug, PartialEq, Eq)]
pub struct RepoError {
    pub kind: ErrorKind,
    pub message: String,
}

/// A failure reported by the document store, as the store classifies it.
#[derive(Clone, Debug, PartialEq, Eq)]
pub struct StoreFault {
    /// The store rejected an argument (a malformed document or filter).
    pub invalid_argument: bool,
    /// The store's own description of the failure.
    pub text: String,
}

/// How a store fault on a write or lookup is reported outward.
pub open spec fn fault_kind(f: StoreFault) -> ErrorKind {
    if f.invalid_argument {
        ErrorKind::ClientError
    } else {
        ErrorKind::ServerError
    }
}

/// The kinds of an outcome, with the messages left out.
pub open spec fn kind_of<T>(r: Result<T, RepoError>) -> Result<T, ErrorKind> {
    match r {
        Ok(v) => Ok(v),
        Err(e) => Err(e.kind),
    }
}

/// The text that opens every message about the collection `name`.
pub open spec fn message_prefix(name: Seq<char>) -> Seq<char> {
    name + " MongoDB Repo Error: "@
}

/// A message about the collection `name`, prefixed with that name.
pub fn qualified_message(name: &str, detail: &str) -> (r: String)
    ensures
        r@ == message_prefix(name@) + detail@,
{
    let mut s = String::from_str(name);
    s.append(" MongoDB Repo Error: ");
    s.append(detail);
    proof {
        reveal_strlit(" MongoDB Repo Error: ");
    }
    s
}

} // verus!
