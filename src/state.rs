use vstd::prelude::*;
use crate::address::{Address, AddressView};

verus! {

/// What a transition must remember to be undone: the default gateway that was
/// in force before it. Empty until a transition is armed.
#[derive(Debug)]
pub struct TransitionState {
    gateway: Option<Address>,
}

impl View for TransitionState {
    type V = Option<AddressView>;

    closed spec fn view(&self) -> Option<AddressView> {
        match self.gateway {
            Some(g) => Some(g@),
            None => None,
        }
    }
}

impl TransitionState {
    /// A state with nothing to restore.
    pub fn new() -> (r: TransitionState)
        ensures
            r@ is None,
    {
        TransitionState { gateway: None }
    }

    /// Whether a gateway is held.
    pub fn is_armed(&self) -> (r: bool)
        ensures
            r == self@ is Some,
    {
        self.gateway.is_some()
    }

    /// Remembers the original gateway, in place of any earlier one.
    pub fn arm(&mut self, gateway: Address)
        ensures
            final(self)@ == Some(gateway@),
    {
        self.gateway = Some(gateway);
    }

    /// Hands back the remembered gateway, if any, and forgets it.
    pub fn disarm(&mut self) -> (r: Option<Address>)
        ensures
            final(self)@ is None,
            match r {
                Some(g) => old(self)@ == Some(g@),
                None => old(self)@ is None,
            },
    {
        let r = self.gateway.take();
        r
    }
}

} // verus!
