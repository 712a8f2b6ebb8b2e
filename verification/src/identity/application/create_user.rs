//! Command: create a user account.
use crate::identity::domain::repository::IdentityError;
use crate::identity::domain::user::{is_blank, PasswordError, PasswordHasher, User};
use crate::provider::id::IdGenerator;
use crate::shared::ids::UserID;
use std::sync::Arc;
use vstd::prelude::*;

verus! {

/// Command to create a new user account.
#[derive(Debug, Clone)]
pub struct CreateUserCommand {
    pub email: String,
    pub password: String,
    pub name: String,
}

/// Handler for creating user accounts, one per email address.
pub struct CreateUserHandler<R, H, I> {
    pub user_repository: Arc<R>,
    pub password_hasher: Arc<H>,
    pub id_generator: Arc<I>,
}

impl<R, H, I> CreateUserHandler<R, H, I> {
    /// Creates a new handler with the given dependencies.
    pub fn new(user_repository: Arc<R>, password_hasher: Arc<H>, id_generator: Arc<I>) -> (r: Self)
        ensures
            r.user_repository == user_repository,
            r.password_hasher == password_hasher,
            r.id_generator == id_generator,
    {
        CreateUserHandler { user_repository, password_hasher, id_generator }
    }

    /// The account that the command creates, given the user already
    /// registered under its email (`existing`), the outcome of hashing its
    /// password (`hashed`) and the identifier `id`.
    ///
    /// Answers [`IdentityError::EmailAlreadyExists`] when the email is
    /// taken, [`IdentityError::InvalidInput`] when hashing failed or the
    /// email or name is blank.
    pub fn register(existing: Option<User>, hashed: Result<String, PasswordError>, id: UserID, cmd: CreateUserCommand) -> (r: Result<User, IdentityError>)
        ensures
            existing is Some ==> (r matches Err(IdentityError::EmailAlreadyExists(e)) && e
                == cmd.email),
            existing is None ==> (hashed matches Err(pe) ==> (r matches Err(
                IdentityError::InvalidInput(m),
            ) && m@ == pe.message_spec())),
            r is Ok <==> existing is None && hashed is Ok && !is_blank(cmd.email@) && !is_blank(
                cmd.name@,
            ),
            existing is None && hashed is Ok && (is_blank(cmd.email@) || is_blank(cmd.name@))
                ==> r matches Err(IdentityError::InvalidInput(_)),
            r matches Ok(u) ==> (hashed matches Ok(h) && u.id == id && u.email == cmd.email
                && u.password_hash == h && u.name == cmd.name),
    {
        if existing.is_some() {
            return Err(IdentityError::EmailAlreadyExists(cmd.email));
        }
        let password_hash = match hashed {
            Ok(h) => h,
            Err(e) => {
                return Err(IdentityError::InvalidInput(e.message()));
            },
        };
        User::new(id, cmd.email, password_hash, cmd.name)
    }
}

impl<R, H: PasswordHasher, I: IdGenerator> CreateUserHandler<R, H, I> {
    /// The account that the command creates, given the user already
    /// registered under its email (`existing`): the password is hashed and
    /// an identifier drawn only when the email is free, and the outcome is
    /// decided by [`register`](Self::register).
    pub fn create(&self, existing: Option<User>, cmd: CreateUserCommand) -> (r: Result<User, IdentityError>)
        ensures
            existing is Some ==> (r matches Err(IdentityError::EmailAlreadyExists(e)) && e
                == cmd.email),
            r matches Ok(u) ==> existing is None && u.email == cmd.email && u.name == cmd.name
                && !is_blank(cmd.email@) && !is_blank(cmd.name@) && self.id_generator.issues(u.id.0),
            (r matches Err(IdentityError::EmailAlreadyExists(_))) <==> existing is Some,
            r matches Ok(u) ==> self.password_hasher.hash_outcome(
                cmd.password@,
                Ok::<String, PasswordError>(u.password_hash),
            ),
            existing is None ==> exists|hashed: Result<String, PasswordError>|
                #[trigger] self.password_hasher.hash_outcome(cmd.password@, hashed) && {
                    &&& (r is Ok <==> hashed is Ok && !is_blank(cmd.email@) && !is_blank(
                        cmd.name@,
                    ))
                    &&& (hashed matches Err(pe) ==> (r matches Err(IdentityError::InvalidInput(m))
                        && m@ == pe.message_spec()))
                    &&& (hashed is Ok && (is_blank(cmd.email@) || is_blank(cmd.name@)) ==> r matches Err(
                        IdentityError::InvalidInput(_),
                    ))
                    &&& (r matches Ok(u) ==> hashed == Ok::<String, PasswordError>(u.password_hash))
                },
    {
        if existing.is_some() {
            return Err(IdentityError::EmailAlreadyExists(cmd.email));
        }
        let hashed = self.password_hasher.hash(cmd.password.as_str());
        let id = UserID(self.id_generator.new_id());
        Self::register(existing, hashed, id, cmd)
    }
}

} // verus!
