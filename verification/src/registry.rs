//! The service registry: the repositories that the handlers share.
use std::sync::Arc;
use vstd::prelude::*;

verus! {

/// Another handle on the value that an `Arc` shares, from `Arc::clone`, which
/// returns a pointer to the same allocation: the value seen is the same.
#[verifier::external_body]
fn share<T>(a: &Arc<T>) -> (r: Arc<T>)
    ensures
        r == *a,
{
    Arc::clone(a)
}

/// The repositories of the service, each shared behind an `Arc` so that every
/// request handler works with the same instances.
pub struct AppRegistry<H, B> {
    health_check_repository: Arc<H>,
    book_repository: Arc<B>,
}

impl<H, B> AppRegistry<H, B> {
    /// The repository that checks the health of the database.
    pub closed spec fn spec_health_check_repository(&self) -> H {
        *self.health_check_repository
    }

    /// The book repository.
    pub closed spec fn spec_book_repository(&self) -> B {
        *self.book_repository
    }

    /// A registry of the given repositories.
    pub fn new(health_check_repository: H, book_repository: B) -> (registry: Self)
        ensures
            registry.spec_health_check_repository() == health_check_repository,
            registry.spec_book_repository() == book_repository,
    {
        AppRegistry {
            health_check_repository: Arc::new(health_check_repository),
            book_repository: Arc::new(book_repository),
        }
    }

    /// A shared handle on the health-check repository.
    pub fn health_check_repository(&self) -> (r: Arc<H>)
        ensures
            *r == self.spec_health_check_repository(),
    {
        share(&self.health_check_repository)
    }

    /// A shared handle on the book repository.
    pub fn book_repository(&self) -> (r: Arc<B>)
        ensures
            *r == self.spec_book_repository(),
    {
        share(&self.book_repository)
    }
}

impl<H, B> Clone for AppRegistry<H, B> {
    /// Another registry over the same repository instances.
    fn clone(&self) -> (r: Self)
        ensures
            r.spec_health_check_repository() == self.spec_health_check_repository(),
            r.spec_book_repository() == self.spec_book_repository(),
    {
        AppRegistry {
            health_check_repository: share(&self.health_check_repository),
            book_repository: share(&self.book_repository),
        }
    }
}

} // verus!
