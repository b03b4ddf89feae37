//! The repository's operations composed with a model of the document store,
//! and the laws that hold of them.
//!
//! The store is modelled as a map from keys to records: a lookup finds the
//! record under its key, an update writes the present fields over the record
//! it matches and reports how many it matched, a deletion removes the record
//! and reports how many it removed.
use vstd::prelude::*;
use crate::error::ErrorKind;
use crate::model::{
    Detail, DetailUpdate, Experience, ExperienceUpdate, Project, ProjectUpdate, TechStack,
    TechStackUpdate, User, UserUpdate,
};
use crate::object_id::{id_bytes_of, is_id_text, lemma_text_parses_back, RecordId};
use crate::repository::{
    created_outcome, deleted_outcome, fetched_outcome, key_of, update_target, updated_outcome,
};
use crate::schema::{merged, Patch, Schema};

verus! {

/// The record that the store holds under `key`, if any.
pub open spec fn lookup<T>(docs: Map<Seq<u8>, T>, key: Seq<u8>) -> Option<T> {
    if docs.contains_key(key) {
        Some(docs[key])
    } else {
        None
    }
}

/// How many records a filter on `key` matches.
pub open spec fn match_count<T>(docs: Map<Seq<u8>, T>, key: Seq<u8>) -> u64 {
    if docs.contains_key(key) {
        1
    } else {
        0
    }
}

/// The store after the present fields of `fields` are set on the record
/// under `key`.
pub open spec fn after_update<T, U: Patch<T>>(docs: Map<Seq<u8>, T>, key: Seq<u8>, fields: U) -> Map<
    Seq<u8>,
    T,
> {
    if docs.contains_key(key) {
        docs.insert(key, fields.spec_apply(docs[key]))
    } else {
        docs
    }
}

/// Fetching the record named by identifier text.
pub open spec fn get_one<T>(docs: Map<Seq<u8>, T>, text: Seq<char>) -> Result<T, ErrorKind> {
    match key_of(text) {
        Ok(key) => fetched_outcome(Ok(lookup(docs, key))),
        Err(k) => Err(k),
    }
}

/// Updating the record named by identifier text: the store afterwards, and
/// the outcome.
pub open spec fn update_one<T, U: Patch<T>>(docs: Map<Seq<u8>, T>, text: Seq<char>, fields: U) -> (
    Map<Seq<u8>, T>,
    Result<u64, ErrorKind>,
) {
    match update_target::<T, U>(text, fields) {
        Ok(key) => (after_update(docs, key, fields), updated_outcome(Ok(match_count(docs, key)))),
        Err(k) => (docs, Err(k)),
    }
}

/// Deleting the record named by identifier text: the store afterwards, and
/// the outcome.
pub open spec fn delete_one<T>(docs: Map<Seq<u8>, T>, text: Seq<char>) -> (
    Map<Seq<u8>, T>,
    Result<u64, ErrorKind>,
) {
    match key_of(text) {
        Ok(key) => (docs.remove(key), deleted_outcome(Ok(match_count(docs, key)))),
        Err(k) => (docs, Err(k)),
    }
}

/// A record created under a fresh identifier is fetched back, by that
/// identifier's text, as the record itself carrying the identifier.
pub proof fn lemma_create_then_get<T: Schema>(docs: Map<Seq<u8>, T>, r: T, id: RecordId)
    requires
        !docs.contains_key(id.bytes@),
    ensures
        created_outcome(Ok(id)) == Ok::<RecordId, ErrorKind>(id),
        get_one(docs.insert(id.bytes@, r.spec_with_id(Some(id))), id.text()) == Ok::<T, ErrorKind>(
            r.spec_with_id(Some(id)),
        ),
{
    lemma_text_parses_back(id);
}

/// An identifier that matches no record is not found by a lookup, an update
/// or a deletion.
pub proof fn lemma_absent_is_not_found<T, U: Patch<T>>(docs: Map<Seq<u8>, T>, text: Seq<char>, fields: U)
    requires
        is_id_text(text),
        !docs.contains_key(id_bytes_of(text)),
        !fields.spec_is_empty(),
    ensures
        get_one(docs, text) == Err::<T, ErrorKind>(ErrorKind::NotFound),
        update_one(docs, text, fields).1 == Err::<u64, ErrorKind>(ErrorKind::NotFound),
        delete_one(docs, text).1 == Err::<u64, ErrorKind>(ErrorKind::NotFound),
{
}

/// Text that is not 24 hex digits (the empty text among it) is a client
/// error for every operation that takes an identifier, decided before the
/// store is contacted: the store is left as it was. `MongoDB::parse_id`,
/// `MongoDB::update_request`, `crud::path_id` and `crud::update_target_of`
/// refuse such text, so no key reaches a store call.
pub proof fn lemma_malformed_id_is_client_error<T, U: Patch<T>>(
    docs: Map<Seq<u8>, T>,
    text: Seq<char>,
    fields: U,
)
    requires
        !is_id_text(text),
    ensures
        key_of(text) == Err::<Seq<u8>, ErrorKind>(ErrorKind::ClientError),
        update_target::<T, U>(text, fields) == Err::<Seq<u8>, ErrorKind>(ErrorKind::ClientError),
        get_one(docs, text) == Err::<T, ErrorKind>(ErrorKind::ClientError),
        update_one(docs, text, fields) == (docs, Err::<u64, ErrorKind>(ErrorKind::ClientError)),
        delete_one(docs, text) == (docs, Err::<u64, ErrorKind>(ErrorKind::ClientError)),
{
}

/// An update with no field present is a client error for any identifier,
/// and leaves the store as it was.
pub proof fn lemma_empty_update_is_client_error<T, U: Patch<T>>(
    docs: Map<Seq<u8>, T>,
    text: Seq<char>,
    fields: U,
)
    requires
        fields.spec_is_empty(),
    ensures
        update_target::<T, U>(text, fields) == Err::<Seq<u8>, ErrorKind>(ErrorKind::ClientError),
        update_one(docs, text, fields) == (docs, Err::<u64, ErrorKind>(ErrorKind::ClientError)),
{
}

/// After an update of an existing record, a lookup shows the present fields
/// written over the record as it was.
pub proof fn lemma_update_then_get<T, U: Patch<T>>(docs: Map<Seq<u8>, T>, text: Seq<char>, fields: U)
    requires
        is_id_text(text),
        docs.contains_key(id_bytes_of(text)),
        !fields.spec_is_empty(),
    ensures
        update_one(docs, text, fields).1 == Ok::<u64, ErrorKind>(1),
        get_one(update_one(docs, text, fields).0, text) == Ok::<T, ErrorKind>(
            fields.spec_apply(docs[id_bytes_of(text)]),
        ),
{
}

/// The record a lookup shows after an update of an existing record.
pub open spec fn shown_after_update<T, U: Patch<T>>(docs: Map<Seq<u8>, T>, text: Seq<char>, fields: U) -> T {
    get_one(update_one(docs, text, fields).0, text)->Ok_0
}

/// Updating a detail sets each present field to its new value and leaves
/// every absent field, and the identifier, as it was.
pub proof fn lemma_detail_update_fields(docs: Map<Seq<u8>, Detail>, text: Seq<char>, fields: DetailUpdate)
    requires
        is_id_text(text),
        docs.contains_key(id_bytes_of(text)),
        !fields.spec_is_empty(),
    ensures
        ({
            let before = docs[id_bytes_of(text)];
            let after = shown_after_update(docs, text, fields);
            &&& get_one(update_one(docs, text, fields).0, text) is Ok
            &&& after.id == before.id
            &&& after.name == merged(fields.name, before.name)
            &&& after.description == merged(fields.description, before.description)
            &&& after.image == merged(fields.image, before.image)
        }),
{
    lemma_update_then_get(docs, text, fields);
}

/// Updating a technology sets each present field to its new value and leaves
/// every absent field, and the identifier, as it was.
pub proof fn lemma_tech_stack_update_fields(
    docs: Map<Seq<u8>, TechStack>,
    text: Seq<char>,
    fields: TechStackUpdate,
)
    requires
        is_id_text(text),
        docs.contains_key(id_bytes_of(text)),
        !fields.spec_is_empty(),
    ensures
        ({
            let before = docs[id_bytes_of(text)];
            let after = shown_after_update(docs, text, fields);
            &&& get_one(update_one(docs, text, fields).0, text) is Ok
            &&& after.id == before.id
            &&& after.name == merged(fields.name, before.name)
            &&& after.category == merged(fields.category, before.category)
        }),
{
    lemma_update_then_get(docs, text, fields);
}

/// Updating a project sets each present field to its new value and leaves
/// every absent field, and the identifier, as it was.
pub proof fn lemma_project_update_fields(docs: Map<Seq<u8>, Project>, text: Seq<char>, fields: ProjectUpdate)
    requires
        is_id_text(text),
        docs.contains_key(id_bytes_of(text)),
        !fields.spec_is_empty(),
    ensures
        ({
            let before = docs[id_bytes_of(text)];
            let after = shown_after_update(docs, text, fields);
            &&& get_one(update_one(docs, text, fields).0, text) is Ok
            &&& after.id == before.id
            &&& after.name == merged(fields.name, before.name)
            &&& after.company == merged(fields.company, before.company)
            &&& after.repo == merged(fields.repo, before.repo)
            &&& after.url == merged(fields.url, before.url)
            &&& after.tech_stack == merged(fields.tech_stack, before.tech_stack)
        }),
{
    lemma_update_then_get(docs, text, fields);
}

/// Updating an experience sets each present field to its new value and
/// leaves every absent field, and the identifier, as it was.
pub proof fn lemma_experience_update_fields(
    docs: Map<Seq<u8>, Experience>,
    text: Seq<char>,
    fields: ExperienceUpdate,
)
    requires
        is_id_text(text),
        docs.contains_key(id_bytes_of(text)),
        !fields.spec_is_empty(),
    ensures
        ({
            let before = docs[id_bytes_of(text)];
            let after = shown_after_update(docs, text, fields);
            &&& get_one(update_one(docs, text, fields).0, text) is Ok
            &&& after.id == before.id
            &&& after.role == merged(fields.role, before.role)
            &&& after.company == merged(fields.company, before.company)
            &&& after.description == merged(fields.description, before.description)
            &&& after.start == merged(fields.start, before.start)
            &&& after.end == merged(fields.end, before.end)
            &&& after.tech_stacks == merged(fields.tech_stacks, before.tech_stacks)
        }),
{
    lemma_update_then_get(docs, text, fields);
}

/// Updating a user's email sets it and leaves the identifier and the
/// password digest as they were.
pub proof fn lemma_user_update_fields(docs: Map<Seq<u8>, User>, text: Seq<char>, fields: UserUpdate)
    requires
        is_id_text(text),
        docs.contains_key(id_bytes_of(text)),
        !fields.spec_is_empty(),
    ensures
        ({
            let before = docs[id_bytes_of(text)];
            let after = shown_after_update(docs, text, fields);
            &&& get_one(update_one(docs, text, fields).0, text) is Ok
            &&& after.id == before.id
            &&& after.email == merged(fields.email, before.email)
            &&& after.password == before.password
        }),
{
    lemma_update_then_get(docs, text, fields);
}

/// After a deletion, the record is not found, and deleting it again is not
/// found either.
pub proof fn lemma_delete_then_get<T>(docs: Map<Seq<u8>, T>, text: Seq<char>)
    requires
        is_id_text(text),
        docs.contains_key(id_bytes_of(text)),
    ensures
        delete_one(docs, text).1 == Ok::<u64, ErrorKind>(1),
        get_one(delete_one(docs, text).0, text) == Err::<T, ErrorKind>(ErrorKind::NotFound),
        delete_one(delete_one(docs, text).0, text).1 == Err::<u64, ErrorKind>(ErrorKind::NotFound),
{
}

} // verus!
