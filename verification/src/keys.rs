//! Viewing keys.

use vstd::prelude::*;

verus! {

/// The outgoing viewing key of a sender: 32 secret bytes from which the sender
/// can recover what it has sent.
#[derive(Clone, Copy, Debug, PartialEq, Eq)]
pub struct OutgoingViewingKey(pub [u8; 32]);

impl View for OutgoingViewingKey {
    type V = Seq<u8>;

    open spec fn view(&self) -> Seq<u8> {
        self.0@
    }
}

} // verus!
