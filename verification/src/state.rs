//! Account state: addresses, nonces, and the mutable state overlay.

use std::collections::HashMap;

use vstd::prelude::*;

use crate::errors::StateError;

verus! {

/// Address of a contract account.
#[derive(Clone, Copy, Debug, PartialEq, Eq, Structural, Hash)]
pub struct ContractAddress(pub u64);

/// Per-account replay-protection counter. Starts at the sentinel zero,
/// meaning the account has never deployed or transacted.
#[derive(Clone, Copy, Debug, PartialEq, Eq, Structural, Hash)]
pub struct Nonce(pub u64);

/// A mutable view over account state. Only the nonce bindings are held
/// here: they are the single piece of state this core mutates. An address
/// absent from the overlay is one the overlay cannot resolve.
pub struct StateOverlay {
    nonces: HashMap<u64, u64>,
}

impl View for StateOverlay {
    type V = Map<u64, u64>;

    closed spec fn view(&self) -> Map<u64, u64> {
        self.nonces@
    }
}

impl StateOverlay {
    /// An overlay that resolves no address.
    pub fn new() -> (r: Self)
        ensures
            r@ == Map::<u64, u64>::empty(),
    {
        StateOverlay { nonces: HashMap::new() }
    }

    /// Binds `nonce` to `address`, making the address resolvable.
    pub fn set_nonce(&mut self, address: ContractAddress, nonce: Nonce)
        ensures
            final(self)@ == old(self)@.insert(address.0, nonce.0),
    {
        self.nonces.insert(address.0, nonce.0);
    }

    /// The nonce currently bound to `address`, or a state error if the
    /// overlay cannot resolve the address.
    pub fn get_nonce_at(&self, address: ContractAddress) -> (r: Result<Nonce, StateError>)
        ensures
            match r {
                Ok(n) => self@.contains_key(address.0) && n.0 == self@[address.0],
                Err(e) => !self@.contains_key(address.0) && e == (StateError::UnresolvedAddress {
                    address,
                }),
            },
    {
        match self.nonces.get(&address.0) {
            Some(n) => Ok(Nonce(*n)),
            None => Err(StateError::UnresolvedAddress { address }),
        }
    }

    /// Advances the nonce bound to `address` by exactly one, or fails with
    /// a state error, touching nothing, if the address cannot be resolved.
    pub fn increment_nonce(&mut self, address: ContractAddress) -> (r: Result<(), StateError>)
        requires
            old(self)@.contains_key(address.0) ==> old(self)@[address.0] < u64::MAX,
        ensures
            match r {
                Ok(()) => old(self)@.contains_key(address.0) && final(self)@ == old(self)@.insert(
                    address.0,
                    (old(self)@[address.0] + 1) as u64,
                ),
                Err(e) => !old(self)@.contains_key(address.0) && final(self)@ == old(self)@ && e
                    == (StateError::UnresolvedAddress { address }),
            },
    {
        let current: u64 = match self.nonces.get(&address.0) {
            Some(n) => *n,
            None => {
                return Err(StateError::UnresolvedAddress { address });
            },
        };
        self.nonces.insert(address.0, current + 1);
        Ok(())
    }
}

} // verus!
