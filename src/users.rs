//! The user resource: passwords are stored as digests and never shown, and
//! a token is issued exactly for credentials that verify.
use vstd::prelude::*;
use crate::crud::{failure, is_failure, says, status_of, Body, Response};
use crate::error::{fault_kind, message_prefix, ErrorKind, StoreFault};
use crate::model::{PasswordUpdate, User};
use crate::repository::{fetched_outcome, listed_outcome, updated_outcome, MongoDB};
use argon2::password_hash::{rand_core::OsRng, PasswordHasher, SaltString};
use argon2::PasswordVerifier;
use hmac::Mac;
use jwt::SignWithKey;

verus! {

/// What checking `password` against the stored `digest` yields: `Some` with
/// the verdict, or `None` where the digest cannot be read.
pub uninterp spec fn password_verdict(password: Seq<char>, digest: Seq<char>) -> Option<bool>;

/// The token that carries the claim set `claims` (name and value pairs),
/// signed under `secret`.
pub uninterp spec fn signed_token(secret: Seq<char>, claims: Seq<(Seq<char>, Seq<char>)>) -> Seq<char>;

/// Hashes a password with a fresh random salt, as an argon2 digest string.
///
/// Relies on argon2's `PasswordHasher::hash_password` (default parameters):
/// the digest string records its parameters and salt, so it verifies against
/// the password it was made from. Its error becomes its message.
#[verifier::external_body]
pub fn encrypt_password(password: &str) -> (r: Result<String, String>)
    ensures
        r matches Ok(d) ==> password_verdict(password@, d@) == Some(true),
{
    let salt = SaltString::generate(&mut OsRng);
    argon2::Argon2::default()
        .hash_password(password.as_bytes(), &salt)
        .map(|h| h.to_string())
        .map_err(|e| e.to_string())
}

/// Checks a password against a stored digest.
///
/// Relies on argon2's `PasswordHash::new` to read the digest and on
/// `PasswordVerifier::verify_password` for the verdict; both depend on their
/// arguments alone.
#[verifier::external_body]
pub fn verify_password(password: &str, hash_password: &str) -> (r: Result<bool, String>)
    ensures
        password_verdict(password@, hash_password@) == match r {
            Ok(b) => Some(b),
            Err(_) => None::<bool>,
        },
{
    let parsed = argon2::PasswordHash::new(hash_password).map_err(|e| e.to_string())?;
    Ok(argon2::Argon2::default().verify_password(password.as_bytes(), &parsed).is_ok())
}

/// Signs a claim set as an HS256 token under `secret`.
///
/// Relies on jwt's `SignWithKey::sign_with_key` over an HMAC-SHA256 key made
/// by hmac's `Mac::new_from_slice`: the key accepts any secret, a map of
/// strings always serializes, and the token depends on its arguments alone.
#[verifier::external_body]
fn sign_claims(secret: &str, claims: &Vec<(String, String)>) -> (r: Result<String, String>)
    ensures
        r is Ok,
        r matches Ok(t) ==> t@ == signed_token(secret@, claims.deep_view()),
{
    let key: hmac::Hmac<sha2::Sha256> = hmac::Hmac::new_from_slice(secret.as_bytes()).map_err(|e| e.to_string())?;
    let map: std::collections::BTreeMap<&str, String> =
        claims.iter().map(|(name, value)| (name.as_str(), value.clone())).collect();
    map.sign_with_key(&key).map_err(|e| e.to_string())
}

/// The claim set of a user's token: its email and its identifier.
pub open spec fn claim_set(email: Seq<char>, id: Seq<char>) -> Seq<(Seq<char>, Seq<char>)> {
    seq![("email"@, email), ("id"@, id)]
}

/// Whether `shown` is `u` as a client sees it: the password field emptied.
pub open spec fn is_redaction_of(shown: User, u: User) -> bool {
    shown.id == u.id && shown.email@ == u.email@ && shown.password@.len() == 0
}

/// Whether `r` is the 401 response to credentials that do not match.
pub open spec fn is_refusal(db: MongoDB, r: Response<User>) -> bool {
    says(r, 401, message_prefix(db.name@) + "Invalid credentials"@)
}

/// The user as a client sees it: the password field emptied.
pub fn redact(u: &User) -> (r: User)
    ensures
        is_redaction_of(r, *u),
{
    User { id: u.id, email: u.email.clone(), password: String::new() }
}

/// Prepares a new user for insertion: an empty password is refused with 400,
/// any other is replaced by a digest that verifies against it, and the
/// identifier is dropped.
pub fn create(db: &MongoDB, new_user: &User) -> (r: Result<User, Response<User>>)
    ensures
        new_user.password@.len() == 0 ==> (r matches Err(resp) && says(
            resp,
            400,
            message_prefix(db.name@) + "Invalid empty password"@,
        )),
        new_user.password@.len() != 0 ==> (r is Ok || (r matches Err(resp) && is_failure(*db, resp, 500))),
        r matches Ok(u) ==> u.id is None && u.email@ == new_user.email@ && password_verdict(
            new_user.password@,
            u.password@,
        ) == Some(true),
{
    proof {
        reveal_strlit("Invalid empty password");
    }
    if new_user.password.as_str().is_empty() {
        return Err(failure(db, ErrorKind::ClientError, "Invalid empty password"));
    }
    match encrypt_password(new_user.password.as_str()) {
        Ok(password) => Ok(User { id: None, email: new_user.email.clone(), password }),
        Err(text) => Err(failure(db, ErrorKind::ServerError, text.as_str())),
    }
}

/// Replies to a listing of users, given the store's reply: every password
/// is emptied before the records leave.
pub fn get_all(db: &MongoDB, reply: Result<Vec<User>, StoreFault>) -> (r: Response<User>)
    ensures
        r.status == status_of(listed_outcome(reply)),
        reply matches Ok(v) ==> (r.body matches Body::Records(w) && w@.len() == v@.len()
            && forall|i: int| 0 <= i < v@.len() ==> #[trigger] is_redaction_of(w@[i], v@[i])),
        reply matches Err(f) ==> says(r, 500, message_prefix(db.name@) + f.text@),
{
    match reply {
        Ok(v) => {
            let mut w: Vec<User> = Vec::new();
            let mut i: usize = 0;
            while i < v.len()
                invariant
                    i <= v@.len(),
                    w@.len() == i,
                    forall|j: int| 0 <= j < i ==> #[trigger] is_redaction_of(w@[j], v@[j]),
                decreases v@.len() - i,
            {
                w.push(redact(&v[i]));
                i = i + 1;
            }
            crate::crud::get_all(db, Ok(w))
        },
        Err(f) => crate::crud::get_all(db, Err(f)),
    }
}

/// Replies to a lookup of one user, given the store's reply: the password
/// is emptied before the record leaves.
pub fn get(db: &MongoDB, reply: Result<Option<User>, StoreFault>) -> (r: Response<User>)
    ensures
        r.status == status_of(fetched_outcome(reply)),
        reply matches Ok(Some(u)) ==> (r.body matches Body::Record(s) && is_redaction_of(s, u)),
        reply matches Ok(None) ==> says(r, 404, message_prefix(db.name@) + "ID not found"@),
        reply matches Err(f) ==> says(r, fault_kind(f).spec_status(), message_prefix(db.name@) + f.text@),
{
    match reply {
        Ok(Some(u)) => crate::crud::get(db, Ok(Some(redact(&u)))),
        Ok(None) => crate::crud::get(db, Ok(None)),
        Err(f) => crate::crud::get(db, Err(f)),
    }
}

/// Authenticates `credentials`, given the store's reply to the lookup of
/// the user by email and the signing secret: 200 with a token exactly where
/// the password verifies against the stored digest, a secret is at hand and
/// the user has an identifier; 401 where the password does not verify or no
/// user has that email.
pub fn auth(
    db: &MongoDB,
    reply: Result<Option<User>, StoreFault>,
    credentials: &User,
    secret: Result<String, String>,
) -> (r: Response<User>)
    ensures
        reply matches Ok(None) ==> is_refusal(*db, r),
        reply matches Err(f) ==> says(r, fault_kind(f).spec_status(), message_prefix(db.name@) + f.text@),
        reply matches Ok(Some(u)) ==> {
            let verdict = password_verdict(credentials.password@, u.password@);
            &&& verdict == Some(false) ==> is_refusal(*db, r)
            &&& verdict is None ==> is_failure(*db, r, 500)
            &&& verdict == Some(true) && secret is Err ==> is_failure(*db, r, 500)
            &&& verdict == Some(true) && secret is Ok && u.id is None ==> says(
                r,
                500,
                message_prefix(db.name@) + "User ID does not exist."@,
            )
            &&& verdict == Some(true) && secret is Ok && u.id is Some ==> (r.status == 200 && (r.body matches Body::Text(t)
                && t@ == signed_token(secret->Ok_0@, claim_set(u.email@, u.id->Some_0.text()))))
        },
        r.status == 200 ==> (reply matches Ok(Some(u)) && password_verdict(credentials.password@, u.password@)
            == Some(true)),
{
    proof {
        reveal_strlit("Invalid credentials");
        reveal_strlit("User ID does not exist.");
        reveal_strlit("email");
        reveal_strlit("id");
    }
    let user = match reply {
        Ok(Some(u)) => u,
        Ok(None) => return failure(db, ErrorKind::Unauthorized, "Invalid credentials"),
        Err(f) => return crate::crud::get(db, Err(f)),
    };
    let verified = match verify_password(credentials.password.as_str(), user.password.as_str()) {
        Ok(b) => b,
        Err(text) => return failure(db, ErrorKind::ServerError, text.as_str()),
    };
    if !verified {
        return failure(db, ErrorKind::Unauthorized, "Invalid credentials");
    }
    let secret = match secret {
        Ok(s) => s,
        Err(text) => return failure(db, ErrorKind::ServerError, text.as_str()),
    };
    let id = match user.id {
        Some(id) => id.to_text(),
        None => return failure(db, ErrorKind::ServerError, "User ID does not exist."),
    };
    let ghost email = user.email@;
    let ghost id_text = id@;
    let mut claims: Vec<(String, String)> = Vec::new();
    claims.push(("email".to_string(), user.email));
    claims.push(("id".to_string(), id));
    assert(claims.deep_view() =~= claim_set(email, id_text));
    match sign_claims(secret.as_str(), &claims) {
        Ok(token) => Response { status: 200, body: Body::Text(token) },
        Err(text) => failure(db, ErrorKind::ServerError, text.as_str()),
    }
}

/// Checks a password change against the stored user, given the store's reply
/// to its lookup: the old password must verify (else 401), and the new one
/// is hashed. On success, the user as a client sees it and a digest of the
/// new password to write.
pub fn update_password(
    db: &MongoDB,
    reply: Result<Option<User>, StoreFault>,
    passwords: &PasswordUpdate,
) -> (r: Result<(User, String), Response<User>>)
    ensures
        reply matches Ok(None) ==> (r matches Err(resp) && says(
            resp,
            404,
            message_prefix(db.name@) + "ID not found"@,
        )),
        reply matches Err(f) ==> (r matches Err(resp) && says(
            resp,
            fault_kind(f).spec_status(),
            message_prefix(db.name@) + f.text@,
        )),
        reply matches Ok(Some(u)) ==> {
            let verdict = password_verdict(passwords.old_password@, u.password@);
            &&& verdict == Some(false) ==> (r matches Err(resp) && is_refusal(*db, resp))
            &&& verdict is None ==> (r matches Err(resp) && is_failure(*db, resp, 500))
            &&& verdict == Some(true) ==> (r matches Ok((s, _)) && is_redaction_of(s, u)) || (r matches Err(
                resp,
            ) && is_failure(*db, resp, 500))
        },
        r is Ok ==> (reply matches Ok(Some(u)) && password_verdict(passwords.old_password@, u.password@)
            == Some(true)),
        r matches Ok((_, d)) ==> password_verdict(passwords.new_password@, d@) == Some(true),
{
    proof {
        reveal_strlit("Invalid credentials");
    }
    let user = match reply {
        Ok(Some(u)) => u,
        Ok(None) => return Err(crate::crud::get(db, Ok(None))),
        Err(f) => return Err(crate::crud::get(db, Err(f))),
    };
    let verified = match verify_password(passwords.old_password.as_str(), user.password.as_str()) {
        Ok(b) => b,
        Err(text) => return Err(failure(db, ErrorKind::ServerError, text.as_str())),
    };
    if !verified {
        return Err(failure(db, ErrorKind::Unauthorized, "Invalid credentials"));
    }
    match encrypt_password(passwords.new_password.as_str()) {
        Ok(digest) => Ok((redact(&user), digest)),
        Err(text) => Err(failure(db, ErrorKind::ServerError, text.as_str())),
    }
}

/// Replies to a password change, given the store's count of matched records:
/// 200 with the user as a client sees it.
pub fn password_updated(db: &MongoDB, reply: Result<u64, StoreFault>, user: User) -> (r: Response<User>)
    ensures
        r.status == status_of(updated_outcome(reply)),
        updated_outcome(reply) is Ok ==> r.body == Body::Record(user),
        reply == Ok::<u64, StoreFault>(0) ==> says(r, 404, message_prefix(db.name@) + "ID not found"@),
        reply matches Err(f) ==> says(r, fault_kind(f).spec_status(), message_prefix(db.name@) + f.text@),
{
    match crate::crud::update::<User>(db, reply) {
        None => Response { status: 200, body: Body::Record(user) },
        Some(resp) => resp,
    }
}

} // verus!
