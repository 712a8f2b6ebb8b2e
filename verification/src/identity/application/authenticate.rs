//! Command: authenticate a user.
use crate::identity::domain::repository::IdentityError;
use crate::identity::domain::user::{PasswordError, PasswordHasher, User};
use crate::shared::ids::Principal;
use std::sync::Arc;
use vstd::prelude::*;

verus! {

/// Command to authenticate a user.
#[derive(Debug, Clone)]
pub struct AuthenticateUserCommand {
    pub email: String,
    pub password: String,
}

/// Handler for user authentication; a success yields the [`Principal`] of
/// the user.
pub struct AuthenticateUserHandler<R, H> {
    pub user_repository: Arc<R>,
    pub password_hasher: Arc<H>,
}

/// `r` is the answer to a login, given the user registered under the email
/// (`found`) and the outcome of checking the password against that user's
/// stored hash (`verified`): an unknown email and a wrong password answer
/// [`IdentityError::InvalidCredentials`], a hash that cannot be checked
/// answers [`IdentityError::InvalidInput`] with the checker's message, and
/// a matching password answers the user's [`Principal`].
pub open spec fn login_answer(
    found: Option<User>,
    verified: Result<bool, PasswordError>,
    r: Result<Principal, IdentityError>,
) -> bool {
    match found {
        None => r matches Err(IdentityError::InvalidCredentials),
        Some(u) => match verified {
            Err(pe) => r matches Err(IdentityError::InvalidInput(m)) && m@ == pe.message_spec(),
            Ok(false) => r matches Err(IdentityError::InvalidCredentials),
            Ok(true) => r matches Ok(p) && p.user_id == u.id,
        },
    }
}

impl<R, H> AuthenticateUserHandler<R, H> {
    /// Creates a new handler with the given dependencies.
    pub fn new(user_repository: Arc<R>, password_hasher: Arc<H>) -> (r: Self)
        ensures
            r.user_repository == user_repository,
            r.password_hasher == password_hasher,
    {
        AuthenticateUserHandler { user_repository, password_hasher }
    }

    /// The answer to a login, given the user registered under the email
    /// (`found`) and the outcome of checking the password against the
    /// user's stored hash (`verified`).
    ///
    /// An unknown email and a wrong password both answer
    /// [`IdentityError::InvalidCredentials`]; a stored hash that cannot be
    /// checked answers [`IdentityError::InvalidInput`].
    pub fn decide(found: Option<User>, verified: Result<bool, PasswordError>) -> (r: Result<Principal, IdentityError>)
        ensures
            found is None ==> r matches Err(IdentityError::InvalidCredentials),
            found is Some ==> (verified matches Err(pe) ==> (r matches Err(
                IdentityError::InvalidInput(m),
            ) && m@ == pe.message_spec())),
            found is Some ==> (verified == Ok::<bool, PasswordError>(false) ==> r matches Err(
                IdentityError::InvalidCredentials,
            )),
            r is Ok <==> found is Some && verified == Ok::<bool, PasswordError>(true),
            r matches Ok(p) ==> (found matches Some(u) && p.user_id == u.id),
            login_answer(found, verified, r),
    {
        let user = match found {
            Some(u) => u,
            None => {
                return Err(IdentityError::InvalidCredentials);
            },
        };
        let valid = match verified {
            Ok(b) => b,
            Err(e) => {
                return Err(IdentityError::InvalidInput(e.message()));
            },
        };
        if !valid {
            return Err(IdentityError::InvalidCredentials);
        }
        Ok(Principal::new(user.id))
    }
}

impl<R, H: PasswordHasher> AuthenticateUserHandler<R, H> {
    /// The answer to a login, given the user registered under the email
    /// (`found`): the password is checked against the stored hash only
    /// when there is such a user, and the answer is decided by
    /// [`decide`](Self::decide).
    pub fn authenticate(&self, found: Option<User>, cmd: AuthenticateUserCommand) -> (r: Result<Principal, IdentityError>)
        ensures
            found is None ==> r matches Err(IdentityError::InvalidCredentials),
            r matches Ok(p) ==> (found matches Some(u) && p.user_id == u.id),
            found matches Some(u) ==> exists|v: Result<bool, PasswordError>|
                #[trigger] self.password_hasher.verify_outcome(cmd.password@, u.password_hash@, v)
                    && login_answer(found, v, r),
            r is Ok ==> (found matches Some(u) && self.password_hasher.verify_outcome(
                cmd.password@,
                u.password_hash@,
                Ok(true),
            )),
    {
        match found {
            None => Err(IdentityError::InvalidCredentials),
            Some(u) => {
                let verified = self.password_hasher.verify(cmd.password.as_str(), u.password_hash.as_str());
                Self::decide(Some(u), verified)
            },
        }
    }
}

} // verus!
