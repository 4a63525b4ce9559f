//! Authentication: bearer tokens, registration and password checks.
use vstd::prelude::*;
use vstd::utf8::encode_utf8;
use crate::errors::{ApiError, CreateUserRequest};
use crate::text::{chars_of, contains, contains_str, has_prefix, starts_with_str, slice_chars, push_chars};

verus! {

/// The user on whose behalf a request is made, by the 128-bit value of
/// their id.
pub struct CurrentUser {
    pub user_id: u128,
}

// ---------------------------------------------------------------------------
// Bearer tokens
// ---------------------------------------------------------------------------

/// The token of an `Authorization` header value: what follows `Bearer `.
pub open spec fn bearer_token_of(header: Option<Seq<char>>) -> Option<Seq<char>> {
    match header {
        Some(h) => if has_prefix(h, "Bearer "@) {
            Some(h.skip(7))
        } else {
            None
        },
        None => None,
    }
}

/// The token of an `Authorization` header value (absent, or not visible
/// ASCII, as `None`), or the 401 answer for a request without one.
pub fn bearer_token(header: Option<&str>) -> (r: Result<String, ApiError>)
    ensures
        r matches Ok(t) ==> bearer_token_of(match header {
            Some(h) => Some(h@),
            None => None,
        }) == Some(t@),
        r matches Err(e) ==> bearer_token_of(match header {
            Some(h) => Some(h@),
            None => None,
        }) is None && e.status_code == 401 && e.message@ == "Missing or invalid Authorization header"@,
{
    match header {
        Some(h) => {
            let hc = chars_of(h);
            if starts_with_str(hc.as_slice(), "Bearer ") {
                proof {
                    reveal_strlit("Bearer ");
                }
                let rest = slice_chars(hc.as_slice(), 7, hc.len());
                let mut t = String::new();
                push_chars(&mut t, rest.as_slice());
                assert(rest@ =~= h@.skip(7));
                Ok(t)
            } else {
                Err(ApiError::unauthorized("Missing or invalid Authorization header"))
            }
        },
        None => Err(ApiError::unauthorized("Missing or invalid Authorization header")),
    }
}

/// The token sent as `Bearer {token}` is the token read back.
pub proof fn lemma_bearer_roundtrip(token: Seq<char>)
    ensures
        bearer_token_of(Some("Bearer "@ + token)) == Some(token),
{
    reveal_strlit("Bearer ");
    assert(("Bearer "@ + token).take(7) =~= "Bearer "@);
    assert(("Bearer "@ + token).skip(7) =~= token);
}

/// The user a token belongs to, from the lookup of unexpired tokens: `None`
/// when the lookup failed or found no such token, `Some(None)` when the
/// token names no user.
pub fn validate_token(lookup: Option<Option<u128>>) -> (r: Result<u128, ApiError>)
    ensures
        match lookup {
            Some(Some(id)) => r == Ok::<u128, ApiError>(id),
            Some(None) => r matches Err(e) && e.status_code == 500 && e.message@ == "Invalid or expired token"@,
            None => r matches Err(e) && e.status_code == 500 && e.message@ == "Invalid token"@,
        },
{
    match lookup {
        Some(Some(id)) => Ok(id),
        Some(None) => Err(ApiError::new("Invalid or expired token")),
        None => Err(ApiError::new("Invalid token")),
    }
}

/// The user a request is made for, or a 401 answer with the message of the
/// failed token check.
pub fn require_auth(checked: Result<u128, ApiError>) -> (r: Result<CurrentUser, ApiError>)
    ensures
        match checked {
            Ok(id) => r matches Ok(u) && u.user_id == id,
            Err(e) => r matches Err(f) && f.status_code == 401 && f.message@ == e.message@,
        },
{
    match checked {
        Ok(id) => Ok(CurrentUser { user_id: id }),
        Err(e) => Err(ApiError { message: e.message, status_code: 401 }),
    }
}

// ---------------------------------------------------------------------------
// Passwords
// ---------------------------------------------------------------------------

/// What `bcrypt::verify` answers for a password, given by its bytes, and a
/// stored hash: `Some(matches)`, or `None` for a hash it cannot read.
pub uninterp spec fn bcrypt_verifies(password: Seq<u8>, hash: Seq<char>) -> Option<bool>;

/// Calls `bcrypt::hash` with `bcrypt::DEFAULT_COST` and a fresh random salt.
/// The hash, when there is one, is one that `bcrypt::verify` accepts for
/// the same password: `verify` reads the cost and salt back from the hash
/// and hashes the password again with them. The salt, and so the hash
/// itself, is not stated; the error is bcrypt's message.
#[verifier::external_body]
fn bcrypt_hash(password: &str) -> (r: Result<String, String>)
    ensures
        r matches Ok(h) ==> bcrypt_verifies(encode_utf8(password@), h@) == Some(true),
{
    match bcrypt::hash(password, bcrypt::DEFAULT_COST) {
        Ok(h) => Ok(h),
        Err(e) => Err(e.to_string()),
    }
}

/// Calls `bcrypt::verify`; the answer is the named one for these
/// arguments, with an unreadable hash as `None`.
#[verifier::external_body]
fn bcrypt_verify(password: &str, hash: &str) -> (r: Option<bool>)
    ensures
        r == bcrypt_verifies(encode_utf8(password@), hash@),
{
    match bcrypt::verify(password, hash) {
        Ok(b) => Some(b),
        Err(_) => None,
    }
}

/// Why a registration is refused before anything is stored: a missing
/// email or password, or a password under 8 bytes.
pub open spec fn registration_error(email: Seq<char>, password: Seq<char>) -> Option<Seq<char>> {
    if email.len() == 0 || password.len() == 0 {
        Some("Email and password are required"@)
    } else if encode_utf8(password).len() < 8 {
        Some("Password must be at least 8 characters"@)
    } else {
        None
    }
}

/// Whether a password opens an account with the stored hash.
pub open spec fn login_accepts(password: Seq<char>, hash: Seq<char>) -> bool {
    bcrypt_verifies(encode_utf8(password), hash) == Some(true)
}

/// A user about to be stored: the password is kept as its hash.
pub struct NewUser {
    pub email: String,
    pub password_hash: String,
    pub name: String,
}

/// Checks a registration and hashes its password. The request is refused
/// with the message of [`registration_error`] when that names one;
/// otherwise the user is ready to store, with a hash that signs the same
/// password in, unless hashing failed.
pub fn register(req: &CreateUserRequest) -> (r: Result<NewUser, ApiError>)
    ensures
        registration_error(req.email@, req.password@) matches Some(m) ==> r matches Err(e) && e.message@ == m
            && e.status_code == 500,
        r matches Ok(u) ==> registration_error(req.email@, req.password@) is None && u.email@ == req.email@
            && u.name@ == req.name@ && login_accepts(req.password@, u.password_hash@),
        r matches Err(e) ==> e.status_code == 500 && (registration_error(req.email@, req.password@) matches Some(m)
            ==> e.message@ == m) && (registration_error(req.email@, req.password@) is None ==> has_prefix(
            e.message@,
            "Failed to hash password: "@,
        )),
{
    if req.email.as_str().unicode_len() == 0 || req.password.as_str().unicode_len() == 0 {
        return Err(ApiError::new("Email and password are required"));
    }
    let bytes = req.password.as_str().as_bytes_vec();
    if bytes.len() < 8 {
        return Err(ApiError::new("Password must be at least 8 characters"));
    }
    match bcrypt_hash(req.password.as_str()) {
        Ok(h) => Ok(NewUser { email: req.email.clone(), password_hash: h, name: req.name.clone() }),
        Err(msg) => {
            let mut m = String::new();
            m.append("Failed to hash password: ");
            m.append(msg.as_str());
            assert(m@.take("Failed to hash password: "@.len() as int) =~= "Failed to hash password: "@);
            Err(ApiError { message: m, status_code: 500 })
        },
    }
}

/// The answer to a registration that the store refused: `Email already
/// exists` when the store reports a duplicate, else the store's error.
pub open spec fn registration_failure_message(db_error: Seq<char>) -> Seq<char> {
    if contains(db_error, "duplicate"@) {
        "Email already exists"@
    } else {
        "Failed to create user: "@ + db_error
    }
}

/// The answer to a registration that the store refused with `db_error`.
pub fn registration_failure(db_error: &str) -> (e: ApiError)
    ensures
        e.status_code == 500,
        e.message@ == registration_failure_message(db_error@),
{
    let d = chars_of(db_error);
    if contains_str(d.as_slice(), "duplicate") {
        ApiError::new("Email already exists")
    } else {
        let mut m = String::new();
        m.append("Failed to create user: ");
        m.append(db_error);
        ApiError { message: m, status_code: 500 }
    }
}

/// The answer to a sign-in whose email is unknown or whose password is
/// wrong.
pub fn login_failure() -> (e: ApiError)
    ensures
        e.status_code == 500,
        e.message@ == "Invalid email or password"@,
{
    ApiError::new("Invalid email or password")
}

/// Checks a password against the stored hash of the account.
pub fn login(password: &str, stored_hash: &str) -> (r: Result<(), ApiError>)
    ensures
        r is Ok <==> login_accepts(password@, stored_hash@),
        r matches Err(e) ==> e.status_code == 500 && e.message@ == "Invalid email or password"@,
{
    match bcrypt_verify(password, stored_hash) {
        Some(true) => Ok(()),
        _ => Err(login_failure()),
    }
}

/// Calls `uuid::Uuid::new_v4` and writes it in its hyphenated form, which
/// is 36 characters long. The value is random.
#[verifier::external_body]
pub(crate) fn random_uuid_text() -> (t: String)
    ensures
        t@.len() == 36,
{
    uuid::Uuid::new_v4().to_string()
}

/// A fresh session token: a random version-4 UUID in hyphenated form.
pub fn new_session_token() -> (t: String)
    ensures
        t@.len() == 36,
{
    random_uuid_text()
}


}
