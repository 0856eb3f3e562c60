//! The state store: the one durable record of an instance.

use vstd::prelude::*;
use crate::error::ContractError;

verus! {

/// Whether two canonical identities are the same principal.
pub fn same_identity(a: &Vec<u8>, b: &Vec<u8>) -> (same: bool)
    ensures
        same == (a@ == b@),
{
    if a.len() != b.len() {
        return false;
    }
    let mut i: usize = 0;
    while i < a.len()
        invariant
            a@.len() == b@.len(),
            i <= a@.len(),
            forall|j: int| 0 <= j < i ==> a@[j] == b@[j],
        decreases a@.len() - i,
    {
        if a[i] != b[i] {
            return false;
        }
        i += 1;
    }
    assert(a@ =~= b@);
    true
}

/// Whether a canonical identity is on a list.
pub fn is_listed(list: &Vec<Vec<u8>>, identity: &Vec<u8>) -> (listed: bool)
    ensures
        listed == list.deep_view().contains(identity@),
{
    let mut i: usize = 0;
    while i < list.len()
        invariant
            i <= list@.len(),
            forall|j: int| 0 <= j < i ==> list.deep_view()[j] != identity@,
        decreases list@.len() - i,
    {
        assert(list.deep_view()[i as int] == list@[i as int]@);
        if same_identity(&list[i], identity) {
            return true;
        }
        i += 1;
    }
    false
}

/// A copy of a list of canonical identities.
pub fn copy_identities(list: &Vec<Vec<u8>>) -> (copy: Vec<Vec<u8>>)
    ensures
        copy.deep_view() == list.deep_view(),
{
    let mut copy: Vec<Vec<u8>> = Vec::new();
    let mut i: usize = 0;
    while i < list.len()
        invariant
            i <= list@.len(),
            copy@.len() == i,
            forall|j: int| 0 <= j < i ==> copy@[j]@ == list@[j]@,
        decreases list@.len() - i,
    {
        copy.push(list[i].clone());
        i += 1;
    }
    assert(copy.deep_view() =~= list.deep_view());
    copy
}

/// The record of an instance.
#[derive(Debug)]
pub struct State {
    /// The principal that created the instance, in canonical form.
    pub owner: Vec<u8>,
    /// The principals that may mint a viewing key, in canonical form. The
    /// list is kept as it was given: it may name a principal twice.
    pub allowed_viewers: Vec<Vec<u8>>,
    /// The secret payload.
    pub secret_variables: String,
}

/// A record as plain values.
pub struct StateView {
    pub owner: Seq<u8>,
    pub allowed_viewers: Seq<Seq<u8>>,
    pub secret_variables: Seq<char>,
}

impl View for State {
    type V = StateView;

    open spec fn view(&self) -> StateView {
        StateView {
            owner: self.owner@,
            allowed_viewers: self.allowed_viewers.deep_view(),
            secret_variables: self.secret_variables@,
        }
    }
}

impl StateView {
    /// The record of a new instance: no viewers, an empty payload.
    pub open spec fn fresh(owner: Seq<u8>) -> StateView {
        StateView { owner, allowed_viewers: Seq::empty(), secret_variables: Seq::empty() }
    }
}

impl Clone for State {
    fn clone(&self) -> (copy: State)
        ensures
            copy@ == self@,
    {
        State {
            owner: self.owner.clone(),
            allowed_viewers: copy_identities(&self.allowed_viewers),
            secret_variables: self.secret_variables.clone(),
        }
    }
}

/// The handle on the record of one instance: empty until the instance is
/// initialized, and holding one record from then on.
pub struct StateStore {
    /// The record, once there is one.
    pub record: Option<State>,
}

impl View for StateStore {
    type V = Option<StateView>;

    open spec fn view(&self) -> Option<StateView> {
        match self.record {
            Some(state) => Some(state@),
            None => None,
        }
    }
}

impl StateStore {
    /// The store of an instance that is not initialized yet.
    pub fn new() -> (store: StateStore)
        ensures
            store@ is None,
    {
        StateStore { record: None }
    }

    /// Creates the record, with the given owner, no viewers and an empty
    /// payload, and hands back a copy of it. A store that has a record
    /// refuses and keeps it.
    pub fn initialize(&mut self, owner: Vec<u8>) -> (result: Result<State, ContractError>)
        ensures
            match result {
                Ok(state) => old(self)@ is None && state@ == StateView::fresh(owner@)
                    && final(self)@ == Some(state@),
                Err(e) => old(self)@ is Some && e == ContractError::AlreadyInitialized
                    && final(self)@ == old(self)@,
            },
    {
        if self.record.is_some() {
            return Err(ContractError::AlreadyInitialized);
        }
        let state = State { owner, allowed_viewers: Vec::new(), secret_variables: String::new() };
        assert(state.allowed_viewers.deep_view() =~= Seq::empty());
        let copy = state.clone();
        self.record = Some(state);
        Ok(copy)
    }

    /// A copy of the record.
    pub fn load(&self) -> (result: Result<State, ContractError>)
        ensures
            match result {
                Ok(state) => self@ == Some(state@),
                Err(e) => self@ is None && e == ContractError::NotFound,
            },
    {
        match &self.record {
            Some(state) => Ok(state.clone()),
            None => Err(ContractError::NotFound),
        }
    }

    /// Reads the record, applies `transform`, and commits what it returns:
    /// all or nothing. Where `transform` fails, its error is handed on and the
    /// record stays as it was.
    pub fn update<F>(&mut self, transform: F) -> (result: Result<(), ContractError>)
        where F: FnOnce(State) -> Result<State, ContractError>
        requires
            old(self).record matches Some(state) ==> transform.requires((state,)),
        ensures
            match (old(self).record, result) {
                (Some(state), Ok(_)) => final(self).record matches Some(next)
                    && transform.ensures((state,), Ok(next)),
                (Some(state), Err(e)) => final(self)@ == old(self)@
                    && transform.ensures((state,), Err(e)),
                (None, Ok(_)) => false,
                (None, Err(e)) => final(self)@ == old(self)@ && e == ContractError::NotFound,
            },
    {
        match self.record.take() {
            None => Err(ContractError::NotFound),
            Some(state) => {
                let backup = state.clone();
                match transform(state) {
                    Ok(next) => {
                        self.record = Some(next);
                        Ok(())
                    },
                    Err(e) => {
                        self.record = Some(backup);
                        Err(e)
                    },
                }
            },
        }
    }
}

} // verus!
