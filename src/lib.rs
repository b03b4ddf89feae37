//! A generic document repository for a small portfolio service: identifier
//! handling, partial-update semantics, and the uniform mapping of every store
//! outcome to a client, not-found, unauthorized or server error.
//!
//! Each operation is split at its store call. The library decides everything
//! before the call (and may refuse the request without it) and everything
//! after it, from the store's reply; the caller performs the call.
mod error;
mod model;
mod object_id;
mod repository;
mod schema;

pub mod crud;
pub mod laws;
pub mod users;

pub use error::{qualified_message, ErrorKind, RepoError, StoreFault};
pub use model::{
    Detail, DetailUpdate, Experience, ExperienceUpdate, PasswordUpdate, Project, ProjectUpdate,
    TechStack, TechStackUpdate, User, UserUpdate,
};
pub use object_id::RecordId;
pub use repository::MongoDB;
pub use schema::{Patch, Schema};
