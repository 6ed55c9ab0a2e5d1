//! Authors as storage holds them.

use vstd::prelude::*;
use crate::domain::entity::author::{Author, AuthorId, AuthorName};
use crate::domain::entity::user::empty_value_text;
use crate::domain::error::DomainError;

verus! {

/// A stored author.
#[derive(Debug, Clone)]
pub struct AuthorRow {
    pub id: u128,
    pub name: String,
}

/// The author of a stored row. A stored name is held to the same rule as a
/// new one.
pub fn author_from_row(row: AuthorRow) -> (r: Result<Author, DomainError>)
    ensures
        row.name@.len() >= 1 ==> (r matches Ok(author) && author.spec_id()@ == row.id
            && author.spec_name()@ == row.name@),
        row.name@.len() == 0 ==> (r matches Err(DomainError::Validation(message)) && message@
            == empty_value_text()),
{
    let author_id = AuthorId::new(row.id);
    let author_name = match AuthorName::new(row.name) {
        Ok(name) => name,
        Err(error) => {
            return Err(error);
        },
    };
    Author::new(author_id, author_name)
}

/// The identifiers of a list of authors as storage takes them.
pub fn author_id_values(author_ids: &Vec<AuthorId>) -> (values: Vec<u128>)
    ensures
        values@.len() == author_ids@.len(),
        forall|i: int| 0 <= i < values@.len() ==> #[trigger] values@[i] == author_ids@[i]@,
{
    let mut values: Vec<u128> = Vec::new();
    let mut i: usize = 0;
    while i < author_ids.len()
        invariant
            i <= author_ids.len(),
            values@.len() == i,
            forall|j: int| 0 <= j < i ==> #[trigger] values@[j] == author_ids@[j]@,
        decreases author_ids.len() - i,
    {
        values.push(author_ids[i].to_uuid());
        i = i + 1;
    }
    values
}

} // verus!
