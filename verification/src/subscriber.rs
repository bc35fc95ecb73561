//! A subscriber: a validated address together with a validated name.

use crate::email::Email;
use crate::name::Name;
use vstd::prelude::*;

verus! {

/// Someone who subscribed to the newsletter.
#[derive(PartialEq, Eq, Debug)]
pub struct Subscriber {
    pub email: Email,
    pub name: Name,
}

impl Subscriber {
    /// Pairs an address with a name.
    pub fn new(email: Email, name: Name) -> (s: Self)
        ensures
            s.email == email,
            s.name == name,
    {
        Self { email, name }
    }
}

} // verus!
