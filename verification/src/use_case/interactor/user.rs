//! Registering a user.

use vstd::prelude::*;
use crate::domain::entity::user::{empty_value_text, User, UserId};
use crate::use_case::dto::user::UserDto;
use crate::use_case::error::{lift, UseCaseError, UseCaseErrorView};

verus! {

/// Reads the identifier of the acting user. An empty one is a validation
/// error.
pub fn parse_user_id(user_id: &str) -> (r: Result<UserId, UseCaseError>)
    ensures
        user_id@.len() >= 1 ==> (r matches Ok(id) && id@ == user_id@),
        user_id@.len() == 0 ==> (r matches Err(e) && e@ == UseCaseErrorView::Validation(
            empty_value_text(),
        )),
{
    match UserId::new(user_id.to_string()) {
        Ok(id) => Ok(id),
        Err(error) => Err(lift(error)),
    }
}

/// Registers users in a repository.
pub struct RegisterUserInteractor<UR> {
    user_repository: UR,
}

impl<UR> RegisterUserInteractor<UR> {
    /// The repository the interactor writes to.
    pub closed spec fn repository(&self) -> UR {
        self.user_repository
    }

    pub fn new(user_repository: UR) -> (interactor: Self)
        ensures
            interactor.repository() == user_repository,
    {
        Self { user_repository }
    }

    pub fn user_repository(&self) -> (repository: &UR)
        ensures
            *repository == self.repository(),
    {
        &self.user_repository
    }

    /// The user to store for `user_id`.
    pub fn user_to_register(user_id: &str) -> (r: Result<User, UseCaseError>)
        ensures
            user_id@.len() >= 1 ==> (r matches Ok(user) && user.id@ == user_id@),
            user_id@.len() == 0 ==> (r matches Err(e) && e@ == UseCaseErrorView::Validation(
                empty_value_text(),
            )),
    {
        match parse_user_id(user_id) {
            Ok(id) => Ok(User::new(id)),
            Err(error) => Err(error),
        }
    }

    /// What is handed back once the user is stored.
    pub fn registered(user: User) -> (dto: UserDto)
        ensures
            dto.id@ == user.id@,
    {
        UserDto::from(user)
    }
}

} // verus!
