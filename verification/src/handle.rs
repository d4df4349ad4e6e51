use vstd::prelude::*;

verus! {

/// The identity of one live object of the storage engine.
///
/// A handle is never null, cannot be copied, and is given up in one piece:
/// whoever holds the value owns the engine object behind it.
#[derive(Debug, PartialEq, Eq)]
pub struct EngineHandle {
    addr: usize,
}

impl View for EngineHandle {
    type V = nat;

    closed spec fn view(&self) -> nat {
        self.addr as nat
    }
}

impl EngineHandle {
    #[verifier::type_invariant]
    spec fn is_live(self) -> bool {
        self.addr != 0
    }

    /// Takes ownership of the engine object at `addr`; null is no object.
    pub fn new(addr: usize) -> (handle: Option<EngineHandle>)
        ensures
            handle is Some <==> addr != 0,
            handle matches Some(h) ==> h@ == addr,
    {
        if addr == 0 {
            None
        } else {
            Some(EngineHandle { addr })
        }
    }

    /// The address of the engine object, for the call that uses it.
    pub fn addr(&self) -> (addr: usize)
        ensures
            addr == self@,
            addr != 0,
    {
        proof {
            use_type_invariant(self);
        }
        self.addr
    }

    /// Gives the engine object up: the address is handed out for its
    /// teardown, and the handle is gone.
    pub fn release(self) -> (addr: usize)
        ensures
            addr == self@,
            addr != 0,
    {
        proof {
            use_type_invariant(&self);
        }
        self.addr
    }
}

} // verus!
