//! The byte-transparent relay, one direction at a time.
//!
//! After the handshake the proxy copies bytes in both directions until
//! each source reaches end-of-stream or fails. A [`RelayHalf`] models one
//! direction: every chunk read from the source passes through
//! [`RelayHalf::forward`], which hands it on unchanged and accounts for
//! it in a ghost log, so the bytes written to the destination are exactly
//! the bytes read from the source, in order, with nothing added, dropped
//! or reordered. The two halves of a connection share nothing, so the
//! directions run independently; a half stops at its own end-of-stream
//! without cutting the other one short.

use vstd::prelude::*;
use vstd::slice::slice_to_vec;

verus! {

/// One direction of the relay: client to origin, or origin to client.
pub struct RelayHalf {
    /// Everything this direction has carried so far, in order.
    pub carried: Ghost<Seq<u8>>,
}

impl RelayHalf {
    /// A fresh direction that has carried nothing.
    pub fn new() -> (h: RelayHalf)
        ensures
            h.carried@ == Seq::<u8>::empty(),
    {
        RelayHalf { carried: Ghost(Seq::empty()) }
    }

    /// Carry one chunk: what goes out is exactly what came in, and the
    /// log grows by exactly that chunk.
    pub fn forward(&mut self, chunk: &[u8]) -> (out: Vec<u8>)
        ensures
            out@ == chunk@,
            final(self).carried@ == old(self).carried@ + chunk@,
    {
        self.carried = Ghost(self.carried@ + chunk@);
        slice_to_vec(chunk)
    }
}

} // verus!
