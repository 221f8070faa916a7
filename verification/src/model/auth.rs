//! Access tokens.
use vstd::prelude::*;

verus! {

/// A bearer token handed to a user at login.
#[derive(Debug)]
pub struct AccessToken(pub String);

} // verus!
