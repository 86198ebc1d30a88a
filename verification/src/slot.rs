//! An in-process model of the slot: the rendezvous object that the two roles
//! share.
//!
//! The real slot lives in a memory region mapped by two processes; its state
//! byte is the sole atomically accessed field, and every other field is
//! published by the compare-and-swap that advances that byte.  This model
//! holds the same four fields as plain values and gives each access the exact
//! contract the protocol relies on.  The role logic below is written against
//! these operations, and the session proofs run entirely on this model; the
//! embedding program repeats the same calls against the mapped region.

use vstd::prelude::*;

use crate::state::CabinState;

verus! {

/// Marker owned by whoever keeps a mapped region alive.  Borrowing views of a
/// region-backed slot against it keeps them from outliving the mapping.
pub struct CabinGuard;

/// The model slot.  `state` stands for the atomic state byte; `id`, `req` and
/// `resp` stand for the plain cells whose visibility the state transitions
/// order.
pub struct Cabin {
    /// The protocol state tag: the publication point for the other fields.
    pub state: CabinState,
    /// The connected client's identifier, diagnostic only.
    pub id: u32,
    /// The request cell, written only by the client role.
    pub req: u64,
    /// The response cell, written only by the server role.
    pub resp: u64,
}

impl Cabin {
    /// A freshly constructed slot: idle and accepting, all cells zeroed, as
    /// the owning role leaves it after initializing the region.
    pub fn new() -> (c: Cabin)
        ensures
            c == (Cabin {
                state: CabinState::AcceptingSpin,
                id: 0,
                req: 0,
                resp: 0,
            }),
    {
        Cabin { state: CabinState::AcceptingSpin, id: 0, req: 0, resp: 0 }
    }

    /// An acquire-ordered read of the state tag.
    pub fn load_state(&self) -> (s: CabinState)
        ensures
            s == self.state,
    {
        self.state
    }

    /// Compare-and-swap on the state tag: advances `current` to `new_state`
    /// and reports `Ok` with the tag that was replaced, or fails with the tag
    /// actually found and changes nothing.  A failed swap is no error: it
    /// means the peer already advanced, and the caller re-reads and
    /// re-dispatches.
    pub fn cas_state(&mut self, current: CabinState, new_state: CabinState) -> (r:
        core::result::Result<CabinState, CabinState>)
        ensures
            old(self).state == current ==> {
                &&& r == core::result::Result::<CabinState, CabinState>::Ok(current)
                &&& *final(self) == (Cabin { state: new_state, ..*old(self) })
            },
            old(self).state != current ==> {
                &&& r == core::result::Result::<CabinState, CabinState>::Err(old(self).state)
                &&& *final(self) == *old(self)
            },
    {
        if self.state == current {
            self.state = new_state;
            core::result::Result::Ok(current)
        } else {
            core::result::Result::Err(self.state)
        }
    }

    /// Read the client identifier.  Meaningful only after observing a state
    /// that the identifier's writer published.
    pub fn id(&self) -> (v: u32)
        ensures
            v == self.id,
    {
        self.id
    }

    /// Write the client identifier.  Must happen before the compare-and-swap
    /// that publishes it.
    pub fn set_id(&mut self, id: u32)
        ensures
            *final(self) == (Cabin { id, ..*old(self) }),
    {
        self.id = id;
    }

    /// Read the request cell; ordered only by the state tag.
    pub fn req(&self) -> (v: u64)
        ensures
            v == self.req,
    {
        self.req
    }

    /// Write the request cell; must precede the publishing compare-and-swap.
    pub fn set_req(&mut self, req: u64)
        ensures
            *final(self) == (Cabin { req, ..*old(self) }),
    {
        self.req = req;
    }

    /// Read the response cell; ordered only by the state tag.
    pub fn resp(&self) -> (v: u64)
        ensures
            v == self.resp,
    {
        self.resp
    }

    /// Write the response cell; must precede the publishing compare-and-swap.
    pub fn set_resp(&mut self, resp: u64)
        ensures
            *final(self) == (Cabin { resp, ..*old(self) }),
    {
        self.resp = resp;
    }
}

} // verus!
