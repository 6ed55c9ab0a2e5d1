//! The use cases that change the shelf, held together.

use vstd::prelude::*;

verus! {

/// One use case for each change a client can ask for.
pub struct MutationInteractor<RUUC, CBUC, UBUC, DBUC, CAUC> {
    register_user_use_case: RUUC,
    create_book_use_case: CBUC,
    update_book_use_case: UBUC,
    delete_book_use_case: DBUC,
    create_author_use_case: CAUC,
}

impl<RUUC, CBUC, UBUC, DBUC, CAUC> MutationInteractor<RUUC, CBUC, UBUC, DBUC, CAUC> {
    /// The five use cases, in the order [`MutationInteractor::new`] takes them.
    pub closed spec fn use_cases(&self) -> (RUUC, CBUC, UBUC, DBUC, CAUC) {
        (
            self.register_user_use_case,
            self.create_book_use_case,
            self.update_book_use_case,
            self.delete_book_use_case,
            self.create_author_use_case,
        )
    }

    pub fn new(
        register_user_use_case: RUUC,
        create_book_use_case: CBUC,
        update_book_use_case: UBUC,
        delete_book_use_case: DBUC,
        create_author_use_case: CAUC,
    ) -> (interactor: Self)
        ensures
            interactor.use_cases() == (
                register_user_use_case,
                create_book_use_case,
                update_book_use_case,
                delete_book_use_case,
                create_author_use_case,
            ),
    {
        Self {
            register_user_use_case,
            create_book_use_case,
            update_book_use_case,
            delete_book_use_case,
            create_author_use_case,
        }
    }

    pub fn register_user_use_case(&self) -> (use_case: &RUUC)
        ensures
            *use_case == self.use_cases().0,
    {
        &self.register_user_use_case
    }

    pub fn create_book_use_case(&self) -> (use_case: &CBUC)
        ensures
            *use_case == self.use_cases().1,
    {
        &self.create_book_use_case
    }

    pub fn update_book_use_case(&self) -> (use_case: &UBUC)
        ensures
            *use_case == self.use_cases().2,
    {
        &self.update_book_use_case
    }

    pub fn delete_book_use_case(&self) -> (use_case: &DBUC)
        ensures
            *use_case == self.use_cases().3,
    {
        &self.delete_book_use_case
    }

    pub fn create_author_use_case(&self) -> (use_case: &CAUC)
        ensures
            *use_case == self.use_cases().4,
    {
        &self.create_author_use_case
    }
}

} // verus!
