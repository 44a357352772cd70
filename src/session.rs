use vstd::prelude::*;
use crate::text::{decimal, push_decimal};

verus! {

/// An interactive login session, known by an identifier whose type depends on
/// the platform (a number on Windows, a string for Linux login managers).
#[non_exhaustive]
#[derive(Clone, Copy, Debug, PartialEq, Eq, Structural)]
pub struct Session_<T> {
    pub id: T,
}

impl<T> Session_<T> {
    /// The session with identifier `id`.
    pub fn new(id: T) -> (r: Self)
        ensures
            r.id == id,
    {
        Session_ { id }
    }
}

impl Session_<u32> {
    /// The session as it reads in a log line: its identifier in decimal.
    pub fn describe(&self) -> (r: String)
        ensures
            r@ == decimal(self.id as nat),
    {
        let mut r = String::new();
        push_decimal(&mut r, self.id);
        r
    }
}

/// The session of a control notification: the service manager gives its
/// identifier as a 32-bit number.
pub type Session = Session_<u32>;

} // verus!
