use crate::account::Evt;
use std::collections::HashSet;
use vstd::prelude::*;

verus! {

broadcast use vstd::std_specs::hash::group_hash_axioms;

/// The set of identifiers of all accounts ever created, as far as the
/// `Created` events observed so far tell. Identifiers are never removed.
#[derive(Debug)]
pub struct AccountIds {
    ids: HashSet<u128>,
}

impl View for AccountIds {
    type V = Set<u128>;

    closed spec fn view(&self) -> Set<u128> {
        self.ids@
    }
}

impl AccountIds {
    /// An empty index.
    pub fn new() -> (r: AccountIds)
        ensures
            r@ == Set::<u128>::empty(),
    {
        AccountIds { ids: HashSet::new() }
    }

    /// Is the given identifier in the index?
    pub fn contains(&self, id: u128) -> (r: bool)
        ensures
            r == self@.contains(id),
    {
        self.ids.contains(&id)
    }

    /// Folds one event of the lifecycle-tagged history into the index: a
    /// `Created` event adds its identifier, any other event is ignored.
    pub fn observe(&mut self, evt: &Evt)
        ensures
            final(self)@ == (match *evt {
                Evt::Created(id) => old(self)@.insert(id),
                _ => old(self)@,
            }),
            old(self)@.subset_of(final(self)@),
    {
        match *evt {
            Evt::Created(id) => {
                self.ids.insert(id);
            },
            _ => {},
        }
    }
}

} // verus!
