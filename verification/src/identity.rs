//! Account identities.

use vstd::prelude::*;

verus! {

/// An account on the ledger, known by its name.
///
/// The name is fixed when the identity is made. Two identities are the same
/// account exactly when their names are equal.
#[derive(Debug)]
pub struct Identity {
    name: String,
}

impl View for Identity {
    type V = Seq<char>;

    closed spec fn view(&self) -> Seq<char> {
        self.name@
    }
}

impl Identity {
    /// The identity with the given name.
    pub fn new(name: String) -> (identity: Identity)
        ensures
            identity@ == name@,
    {
        Identity { name }
    }

    /// The identity named by a string slice.
    pub fn named(name: &str) -> (identity: Identity)
        ensures
            identity@ == name@,
    {
        Identity { name: name.to_owned() }
    }

    /// The name of the account.
    pub fn name(&self) -> (name: &String)
        ensures
            name@ == self@,
    {
        &self.name
    }

    /// Whether both identities name the same account.
    pub fn same_as(&self, other: &Identity) -> (same: bool)
        ensures
            same == (self@ == other@),
    {
        self.name == other.name
    }
}

impl Clone for Identity {
    fn clone(&self) -> (copy: Identity)
        ensures
            copy@ == self@,
    {
        Identity { name: self.name.clone() }
    }
}

impl PartialEq for Identity {
    fn eq(&self, other: &Identity) -> (same: bool) {
        self.name == other.name
    }
}

impl vstd::std_specs::cmp::PartialEqSpecImpl for Identity {
    open spec fn obeys_eq_spec() -> bool {
        true
    }

    open spec fn eq_spec(&self, other: &Identity) -> bool {
        self@ == other@
    }
}

} // verus!
