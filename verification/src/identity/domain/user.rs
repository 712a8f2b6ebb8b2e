//! The user aggregate and the password hashing port.
use crate::identity::domain::repository::IdentityError;
use crate::shared::clock::{now_millis, Timestamp};
use crate::shared::ids::UserID;
use vstd::prelude::*;

verus! {

/// Whether `c` has the Unicode White_Space property, the set of 25 code
/// points that `char::is_whitespace` tests: tab, line feed, vertical tab,
/// form feed, carriage return, space, next line, no-break space, ogham
/// space mark, the spaces from en quad to hair space, line and paragraph
/// separators, narrow no-break space, medium mathematical space and
/// ideographic space.
pub open spec fn unicode_white_space(c: char) -> bool {
    let v = c as u32;
    ||| 0x09 <= v <= 0x0D
    ||| v == 0x20
    ||| v == 0x85
    ||| v == 0xA0
    ||| v == 0x1680
    ||| 0x2000 <= v <= 0x200A
    ||| v == 0x2028
    ||| v == 0x2029
    ||| v == 0x202F
    ||| v == 0x205F
    ||| v == 0x3000
}

/// Whether `c` is white space (see [`unicode_white_space`]).
fn char_is_whitespace(c: char) -> (r: bool)
    ensures
        r == unicode_white_space(c),
{
    let v: u32 = c as u32;
    (0x09 <= v && v <= 0x0D) || v == 0x20 || v == 0x85 || v == 0xA0 || v == 0x1680 || (0x2000
        <= v && v <= 0x200A) || v == 0x2028 || v == 0x2029 || v == 0x202F || v == 0x205F || v
        == 0x3000
}

/// `s` is empty once surrounding white space is trimmed: all its characters
/// are white space.
pub open spec fn is_blank(s: Seq<char>) -> bool {
    forall|i: int| 0 <= i < s.len() ==> unicode_white_space(#[trigger] s[i])
}

/// Whether `s` holds nothing but white space.
pub fn blank(s: &str) -> (r: bool)
    ensures
        r == is_blank(s@),
{
    let n = s.unicode_len();
    let mut i: usize = 0;
    while i < n
        invariant
            n == s@.len(),
            0 <= i <= n,
            forall|j: int| 0 <= j < i ==> unicode_white_space(#[trigger] s@[j]),
        decreases n - i,
    {
        if !char_is_whitespace(s.get_char(i)) {
            return false;
        }
        i = i + 1;
    }
    true
}

/// An authenticated user. `password_hash` holds the hash of the password,
/// never the password itself.
#[derive(Debug, Clone)]
pub struct User {
    pub id: UserID,
    pub email: String,
    pub password_hash: String,
    pub name: String,
    pub created_at: Timestamp,
}

impl User {
    /// Creates a user, stamped with the current time; the password must
    /// already be hashed.
    ///
    /// Fails with [`IdentityError::InvalidInput`] when the email, or else
    /// the name, is blank.
    pub fn new(id: UserID, email: String, password_hash: String, name: String) -> (r: Result<User, IdentityError>)
        ensures
            is_blank(email@) ==> (r matches Err(IdentityError::InvalidInput(m)) && m@
                == "email must not be empty"@),
            !is_blank(email@) && is_blank(name@) ==> (r matches Err(IdentityError::InvalidInput(m))
                && m@ == "name must not be empty"@),
            r is Ok <==> !is_blank(email@) && !is_blank(name@),
            r matches Ok(u) ==> u.id == id && u.email == email && u.password_hash == password_hash
                && u.name == name,
    {
        if blank(email.as_str()) {
            return Err(IdentityError::InvalidInput(String::from_str("email must not be empty")));
        }
        if blank(name.as_str()) {
            return Err(IdentityError::InvalidInput(String::from_str("name must not be empty")));
        }
        Ok(User { id, email, password_hash, name, created_at: now_millis() })
    }
}

/// Errors from password hashing operations.
#[derive(Debug, Clone)]
pub enum PasswordError {
    HashFailed(String),
    InvalidFormat(String),
}

impl PasswordError {
    /// Human-readable description of the error.
    pub open spec fn message_spec(&self) -> Seq<char> {
        match self {
            PasswordError::HashFailed(m) => "hash failed: "@ + m@,
            PasswordError::InvalidFormat(m) => "invalid hash format: "@ + m@,
        }
    }

    /// Human-readable description of the error.
    pub fn message(&self) -> (r: String)
        ensures
            r@ == self.message_spec(),
    {
        match self {
            PasswordError::HashFailed(m) => {
                let mut s = String::from_str("hash failed: ");
                s.append(m.as_str());
                s
            },
            PasswordError::InvalidFormat(m) => {
                let mut s = String::from_str("invalid hash format: ");
                s.append(m.as_str());
                s
            },
        }
    }
}

/// Port for password hashing.
pub trait PasswordHasher {
    /// `r` is an outcome that hashing `password` may have: for a success,
    /// the stored form of the password that later verifies against it.
    spec fn hash_outcome(&self, password: Seq<char>, r: Result<String, PasswordError>) -> bool;

    /// `r` is the outcome of checking `password` against the stored `hash`.
    spec fn verify_outcome(&self, password: Seq<char>, hash: Seq<char>, r: Result<bool, PasswordError>) -> bool;

    /// Hashes a plaintext password.
    fn hash(&self, password: &str) -> (r: Result<String, PasswordError>)
        ensures
            self.hash_outcome(password@, r),
    ;

    /// Whether the plaintext password matches a stored hash.
    fn verify(&self, password: &str, hash: &str) -> (r: Result<bool, PasswordError>)
        ensures
            self.verify_outcome(password@, hash@, r),
    ;
}

/// `hash` is a well-formed PHC string (`PasswordHash::new` accepts it).
pub uninterp spec fn phc_parses(hash: Seq<char>) -> bool;

/// Argon2 with default parameters accepts `password` against the PHC
/// string `hash` (`PasswordVerifier::verify_password` succeeds).
pub uninterp spec fn argon2_accepts(password: Seq<char>, hash: Seq<char>) -> bool;

/// Number of bytes that UTF-8 takes for `c`.
pub open spec fn utf8_char_len(c: char) -> nat {
    if (c as u32) < 0x80 {
        1
    } else if (c as u32) < 0x800 {
        2
    } else if (c as u32) < 0x10000 {
        3
    } else {
        4
    }
}

/// Number of bytes of the UTF-8 encoding of `s`.
pub open spec fn utf8_len(s: Seq<char>) -> nat
    decreases s.len(),
{
    if s.len() == 0 {
        0
    } else {
        utf8_len(s.drop_last()) + utf8_char_len(s.last())
    }
}

/// Longest password, in bytes, that Argon2 accepts (`argon2::MAX_PWD_LEN`).
pub open spec fn max_password_bytes() -> nat {
    0xFFFF_FFFF
}

/// `argon2::PasswordHasher::hash_password` with `Argon2::default()` and a
/// salt drawn from the operating system's generator, rendered as a PHC
/// string. The salt is random, so the string is not determined by the
/// password; what holds of every success is that the string parses and
/// that the same password verifies against it, since verification
/// recomputes the hash with the string's own salt and parameters.
/// The call fails only when the password is longer than
/// `argon2::MAX_PWD_LEN` bytes (`Error::PwdTooLong` from
/// `Argon2::verify_inputs`): the generated salt has 16 bytes, within the
/// salt bounds, and the default parameters and 32-byte output are within
/// theirs.
#[verifier::external_body]
fn argon2_hash(password: &str) -> (r: Result<String, PasswordError>)
    ensures
        r is Ok <==> utf8_len(password@) <= max_password_bytes(),
        r matches Ok(h) ==> phc_parses(h@) && argon2_accepts(password@, h@),
{
    let salt = argon2::password_hash::SaltString::generate(&mut rand::rngs::OsRng);
    match argon2::PasswordHasher::hash_password(&argon2::Argon2::default(), password.as_bytes(), &salt) {
        Ok(h) => Ok(h.to_string()),
        Err(e) => Err(PasswordError::HashFailed(e.to_string())),
    }
}

/// `argon2::password_hash::PasswordHash::new` on `hash`, then
/// `argon2::PasswordVerifier::verify_password` with `Argon2::default()`:
/// an error when the string is not a PHC string, otherwise whether the
/// password matches.
#[verifier::external_body]
fn argon2_verify(password: &str, hash: &str) -> (r: Result<bool, PasswordError>)
    ensures
        r is Ok <==> phc_parses(hash@),
        r matches Ok(b) ==> b == argon2_accepts(password@, hash@),
{
    match argon2::password_hash::PasswordHash::new(hash) {
        Ok(parsed) => Ok(
            argon2::PasswordVerifier::verify_password(&argon2::Argon2::default(), password.as_bytes(), &parsed).is_ok(),
        ),
        Err(e) => Err(PasswordError::InvalidFormat(e.to_string())),
    }
}

/// Argon2id password hasher.
#[derive(Debug, Clone, Copy)]
pub struct Argon2PasswordHasher;

impl PasswordHasher for Argon2PasswordHasher {
    /// Hashing fails exactly for a password longer than Argon2 accepts; a
    /// hash it makes is a PHC string that the password verifies against.
    open spec fn hash_outcome(&self, password: Seq<char>, r: Result<String, PasswordError>) -> bool {
        &&& (r is Ok <==> utf8_len(password) <= max_password_bytes())
        &&& (r matches Ok(h) ==> phc_parses(h@) && argon2_accepts(password, h@))
    }

    /// Checking fails exactly for a stored hash that is not a PHC string,
    /// and otherwise tells whether Argon2 accepts the password against it.
    open spec fn verify_outcome(&self, password: Seq<char>, hash: Seq<char>, r: Result<bool, PasswordError>) -> bool {
        &&& (r is Ok <==> phc_parses(hash))
        &&& (r matches Ok(b) ==> b == argon2_accepts(password, hash))
    }

    fn hash(&self, password: &str) -> (r: Result<String, PasswordError>)
        ensures
            r is Ok <==> utf8_len(password@) <= max_password_bytes(),
            r matches Ok(h) ==> phc_parses(h@) && argon2_accepts(password@, h@),
    {
        argon2_hash(password)
    }

    fn verify(&self, password: &str, hash: &str) -> (r: Result<bool, PasswordError>)
        ensures
            r is Ok <==> phc_parses(hash@),
            r matches Ok(b) ==> b == argon2_accepts(password@, hash@),
    {
        argon2_verify(password, hash)
    }
}

} // verus!
