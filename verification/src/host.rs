//! A host name that the engine has accepted.

use crate::engine::{accepts_dns_name, dns_name_accepted};
use vstd::prelude::*;

verus! {

/// A well-formed host name. There is no other way to one than `parse`, so
/// whoever holds a `HostName` may count on the engine to take it.
#[derive(Debug)]
pub struct HostName(String);

impl View for HostName {
    type V = Seq<char>;

    closed spec fn view(&self) -> Seq<char> {
        self.0@
    }
}

impl HostName {
    #[verifier::type_invariant]
    spec fn well_formed(self) -> bool {
        dns_name_accepted(self.0@)
    }

    /// Takes a name as a host name, if it is well formed.
    pub fn parse(name: &str) -> (parsed: Option<HostName>)
        ensures
            match parsed {
                Some(host) => dns_name_accepted(name@) && host@ == name@,
                None => !dns_name_accepted(name@),
            },
    {
        if accepts_dns_name(name) {
            Some(HostName(name.to_owned()))
        } else {
            None
        }
    }

    /// The name as text, which the engine accepts.
    pub fn as_str(&self) -> (name: &str)
        ensures
            name@ == self@,
            dns_name_accepted(name@),
    {
        proof {
            use_type_invariant(self);
        }
        self.0.as_str()
    }
}

} // verus!
