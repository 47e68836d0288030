use vstd::prelude::*;

pub mod clock;
pub mod error;
pub mod policy;
pub mod storage;

mod rate_limit;
mod reservation;

pub use rate_limit::RateLimit;
pub use reservation::Reservation;

use error::BuilderError;
use policy::Policy;

verus! {

/// Checks that a key and a policy have been chosen.
#[derive(Debug)]
pub struct RateLimiterBuilder<P: Policy> {
    key: String,
    policy: Option<P>,
}

impl<P: Policy> RateLimiterBuilder<P> {
    pub closed spec fn key(&self) -> Seq<char> {
        self.key@
    }

    pub closed spec fn policy(&self) -> Option<P> {
        self.policy
    }

    pub fn new() -> (r: Self)
        ensures
            r.key().len() == 0,
            r.policy() is None,
    {
        RateLimiterBuilder { key: String::new(), policy: None }
    }

    pub fn with_key(self, key: String) -> (r: Self)
        ensures
            r.key() == key@,
            r.policy() == self.policy(),
    {
        RateLimiterBuilder { key, policy: self.policy }
    }

    pub fn with_policy(self, policy: P) -> (r: Self)
        ensures
            r.key() == self.key(),
            r.policy() == Some(policy),
    {
        RateLimiterBuilder { key: self.key, policy: Some(policy) }
    }

    pub fn build(self) -> (r: Result<(), BuilderError>)
        ensures
            self.key().len() == 0 ==> r == Err::<(), BuilderError>(
                BuilderError::KeyNotConfiguredError,
            ),
            self.key().len() > 0 && self.policy() is None ==> r == Err::<(), BuilderError>(
                BuilderError::PolicyNotConfiguredError,
            ),
            self.key().len() > 0 && self.policy() is Some ==> r is Ok,
    {
        if self.key.as_str().is_empty() {
            return Err(BuilderError::KeyNotConfiguredError);
        }
        match self.policy {
            Some(_) => Ok(()),
            None => Err(BuilderError::PolicyNotConfiguredError),
        }
    }
}

} // verus!
